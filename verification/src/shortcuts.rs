//! The table of shortcuts and the two-column list that shows them.
use vstd::prelude::*;
use crate::keys::{
    KeyBinding, KeyCode, ctrl, ctrl_alt, ctrl_alt_binding, ctrl_binding, key_hint_view, plain,
    plain_binding, shift, shift_binding,
};
use crate::text::{
    FooterLine, FooterSpan, LineView, SpanStyle, SpanView, capped, dim_line, line_view, line_views,
    line_width, plain_style, span_view, spaces,
};

verus! {

/// The shortcuts that the list names.
#[derive(Clone, Copy, Debug, PartialEq, Eq)]
pub enum ShortcutId {
    Commands,
    InsertNewline,
    FilePaths,
    PasteImage,
    TogglePlanMode,
    EditPrevious,
    Quit,
    ShowTranscript,
}

/// What the list of shortcuts depends on.
#[derive(Clone, Copy, Debug, PartialEq, Eq)]
pub struct ShortcutsState {
    /// The terminal reports Shift+Enter, so it can insert a newline.
    pub use_shift_enter_hint: bool,
    /// Esc was pressed once already: a second Esc edits the previous message.
    pub esc_backtrack_hint: bool,
    /// Running under the Windows Subsystem for Linux.
    pub is_wsl: bool,
}

/// When a binding applies.
#[derive(Clone, Copy, Debug, PartialEq, Eq)]
pub enum DisplayCondition {
    Always,
    WhenShiftEnterHint,
    WhenNotShiftEnterHint,
    WhenUnderWSL,
}

pub open spec fn condition_holds(c: DisplayCondition, state: ShortcutsState) -> bool {
    match c {
        DisplayCondition::Always => true,
        DisplayCondition::WhenShiftEnterHint => state.use_shift_enter_hint,
        DisplayCondition::WhenNotShiftEnterHint => !state.use_shift_enter_hint,
        DisplayCondition::WhenUnderWSL => state.is_wsl,
    }
}

impl DisplayCondition {
    /// Whether the condition holds in `state`.
    pub fn matches(self, state: ShortcutsState) -> (b: bool)
        ensures
            b == condition_holds(self, state),
    {
        match self {
            DisplayCondition::Always => true,
            DisplayCondition::WhenShiftEnterHint => state.use_shift_enter_hint,
            DisplayCondition::WhenNotShiftEnterHint => !state.use_shift_enter_hint,
            DisplayCondition::WhenUnderWSL => state.is_wsl,
        }
    }
}

/// A key that triggers a shortcut, and when the list shows it.
#[derive(Clone, Copy, Debug, PartialEq, Eq)]
pub struct ShortcutBinding {
    pub key: KeyBinding,
    pub condition: DisplayCondition,
}

impl ShortcutBinding {
    /// Whether the list shows this binding in `state`.
    pub fn matches(&self, state: ShortcutsState) -> (b: bool)
        ensures
            b == condition_holds(self.condition, state),
    {
        self.condition.matches(state)
    }
}

/// A shortcut: its bindings in order of preference, and the text around the
/// key in the list.
pub struct ShortcutDescriptor {
    pub id: ShortcutId,
    pub bindings: Vec<ShortcutBinding>,
    pub prefix: &'static str,
    pub label: &'static str,
}

/// The value of a shortcut descriptor.
#[verifier::ext_equal]
pub struct DescriptorView {
    pub id: ShortcutId,
    pub bindings: Seq<ShortcutBinding>,
    pub prefix: Seq<char>,
    pub label: Seq<char>,
}

impl View for ShortcutDescriptor {
    type V = DescriptorView;

    open spec fn view(&self) -> DescriptorView {
        DescriptorView {
            id: self.id,
            bindings: self.bindings@,
            prefix: self.prefix@,
            label: self.label@,
        }
    }
}

/// The first binding that applies in `state`, if any.
pub open spec fn first_match(bindings: Seq<ShortcutBinding>, state: ShortcutsState) -> Option<
    ShortcutBinding,
>
    decreases bindings.len(),
{
    if bindings.len() == 0 {
        None
    } else if condition_holds(bindings[0].condition, state) {
        Some(bindings[0])
    } else {
        first_match(bindings.drop_first(), state)
    }
}

/// The line that lists a shortcut, if one of its bindings applies: prefix,
/// key, then the label (for "edit previous message", a text that depends
/// on whether Esc was already pressed once).
pub open spec fn overlay_entry_view(d: DescriptorView, state: ShortcutsState) -> Option<LineView> {
    match first_match(d.bindings, state) {
        None => None,
        Some(b) => Some(
            line_view(
                seq![span_view(d.prefix, plain_style()), key_hint_view(b.key)] + if d.id
                    == ShortcutId::EditPrevious {
                    if state.esc_backtrack_hint {
                        seq![span_view(" again to edit previous message"@, plain_style())]
                    } else {
                        seq![
                            span_view(" "@, plain_style()),
                            key_hint_view(plain_binding(KeyCode::Esc)),
                            span_view(" to edit previous message"@, plain_style()),
                        ]
                    }
                } else {
                    seq![span_view(d.label, plain_style())]
                },
            ),
        ),
    }
}

impl ShortcutDescriptor {
    /// The first binding that applies in `state`.
    pub fn binding_for(&self, state: ShortcutsState) -> (r: Option<ShortcutBinding>)
        ensures
            r == first_match(self.bindings@, state),
    {
        let mut i: usize = 0;
        assert(self.bindings@.skip(0) =~= self.bindings@);
        while i < self.bindings.len()
            invariant
                i <= self.bindings.len(),
                first_match(self.bindings@, state) == first_match(
                    self.bindings@.skip(i as int),
                    state,
                ),
            decreases self.bindings.len() - i,
        {
            let b = self.bindings[i];
            assert(self.bindings@.skip(i as int)[0] == b);
            if b.matches(state) {
                return Some(b);
            }
            assert(self.bindings@.skip(i as int).drop_first() =~= self.bindings@.skip(i + 1));
            i = i + 1;
        }
        None
    }

    /// The line that lists this shortcut in `state`, if one of its bindings
    /// applies.
    pub fn overlay_entry(&self, state: ShortcutsState) -> (r: Option<FooterLine>)
        ensures
            match r {
                Some(l) => overlay_entry_view(self@, state) == Some(l@),
                None => overlay_entry_view(self@, state) is None,
            },
    {
        let binding = match self.binding_for(state) {
            Some(b) => b,
            None => return None,
        };
        let mut line = FooterLine::empty();
        line.push_span(FooterSpan::raw(self.prefix));
        line.push_span(binding.key.hint_span());
        match self.id {
            ShortcutId::EditPrevious => {
                if state.esc_backtrack_hint {
                    line.push_span(FooterSpan::raw(" again to edit previous message"));
                } else {
                    line.push_span(FooterSpan::raw(" "));
                    line.push_span(plain(KeyCode::Esc).hint_span());
                    line.push_span(FooterSpan::raw(" to edit previous message"));
                }
            },
            _ => line.push_span(FooterSpan::raw(self.label)),
        }
        assert(line@ =~= overlay_entry_view(self@, state).unwrap());
        Some(line)
    }
}

pub open spec fn binding(key: KeyBinding, condition: DisplayCondition) -> ShortcutBinding {
    ShortcutBinding { key, condition }
}

pub open spec fn descriptor(
    id: ShortcutId,
    bindings: Seq<ShortcutBinding>,
    prefix: Seq<char>,
    label: Seq<char>,
) -> DescriptorView {
    DescriptorView { id, bindings, prefix, label }
}

/// The shortcuts in the order the list shows them. Pasting an image names
/// Ctrl+Alt+V under WSL, where terminals often take plain Ctrl+V for
/// themselves, and Ctrl+V elsewhere.
pub open spec fn shortcut_table() -> Seq<DescriptorView> {
    seq![
        descriptor(
            ShortcutId::Commands,
            seq![binding(plain_binding(KeyCode::Char('/')), DisplayCondition::Always)],
            ""@,
            " for commands"@,
        ),
        descriptor(
            ShortcutId::InsertNewline,
            seq![
                binding(shift_binding(KeyCode::Enter), DisplayCondition::WhenShiftEnterHint),
                binding(ctrl_binding(KeyCode::Char('j')), DisplayCondition::WhenNotShiftEnterHint),
            ],
            ""@,
            " for newline"@,
        ),
        descriptor(
            ShortcutId::FilePaths,
            seq![binding(plain_binding(KeyCode::Char('@')), DisplayCondition::Always)],
            ""@,
            " for file paths"@,
        ),
        descriptor(
            ShortcutId::PasteImage,
            seq![
                binding(ctrl_alt_binding(KeyCode::Char('v')), DisplayCondition::WhenUnderWSL),
                binding(ctrl_binding(KeyCode::Char('v')), DisplayCondition::Always),
            ],
            ""@,
            " to paste images"@,
        ),
        descriptor(
            ShortcutId::TogglePlanMode,
            seq![binding(plain_binding(KeyCode::BackTab), DisplayCondition::Always)],
            ""@,
            " to cycle modes"@,
        ),
        descriptor(
            ShortcutId::EditPrevious,
            seq![binding(plain_binding(KeyCode::Esc), DisplayCondition::Always)],
            ""@,
            ""@,
        ),
        descriptor(
            ShortcutId::Quit,
            seq![binding(ctrl_binding(KeyCode::Char('c')), DisplayCondition::Always)],
            ""@,
            " to exit"@,
        ),
        descriptor(
            ShortcutId::ShowTranscript,
            seq![binding(ctrl_binding(KeyCode::Char('t')), DisplayCondition::Always)],
            ""@,
            " to view transcript"@,
        ),
    ]
}

pub open spec fn descriptor_views(t: Seq<ShortcutDescriptor>) -> Seq<DescriptorView> {
    t.map_values(|d: ShortcutDescriptor| d@)
}

/// The table of shortcuts.
pub fn shortcuts() -> (t: Vec<ShortcutDescriptor>)
    ensures
        descriptor_views(t@) == shortcut_table(),
{
    let t = vec![
        ShortcutDescriptor {
            id: ShortcutId::Commands,
            bindings: vec![ShortcutBinding { key: plain(KeyCode::Char('/')), condition: DisplayCondition::Always }],
            prefix: "",
            label: " for commands",
        },
        ShortcutDescriptor {
            id: ShortcutId::InsertNewline,
            bindings: vec![
                ShortcutBinding {
                    key: shift(KeyCode::Enter),
                    condition: DisplayCondition::WhenShiftEnterHint,
                },
                ShortcutBinding {
                    key: ctrl(KeyCode::Char('j')),
                    condition: DisplayCondition::WhenNotShiftEnterHint,
                },
            ],
            prefix: "",
            label: " for newline",
        },
        ShortcutDescriptor {
            id: ShortcutId::FilePaths,
            bindings: vec![ShortcutBinding { key: plain(KeyCode::Char('@')), condition: DisplayCondition::Always }],
            prefix: "",
            label: " for file paths",
        },
        ShortcutDescriptor {
            id: ShortcutId::PasteImage,
            bindings: vec![
                ShortcutBinding {
                    key: ctrl_alt(KeyCode::Char('v')),
                    condition: DisplayCondition::WhenUnderWSL,
                },
                ShortcutBinding { key: ctrl(KeyCode::Char('v')), condition: DisplayCondition::Always },
            ],
            prefix: "",
            label: " to paste images",
        },
        ShortcutDescriptor {
            id: ShortcutId::TogglePlanMode,
            bindings: vec![ShortcutBinding { key: plain(KeyCode::BackTab), condition: DisplayCondition::Always }],
            prefix: "",
            label: " to cycle modes",
        },
        ShortcutDescriptor {
            id: ShortcutId::EditPrevious,
            bindings: vec![ShortcutBinding { key: plain(KeyCode::Esc), condition: DisplayCondition::Always }],
            prefix: "",
            label: "",
        },
        ShortcutDescriptor {
            id: ShortcutId::Quit,
            bindings: vec![ShortcutBinding { key: ctrl(KeyCode::Char('c')), condition: DisplayCondition::Always }],
            prefix: "",
            label: " to exit",
        },
        ShortcutDescriptor {
            id: ShortcutId::ShowTranscript,
            bindings: vec![ShortcutBinding { key: ctrl(KeyCode::Char('t')), condition: DisplayCondition::Always }],
            prefix: "",
            label: " to view transcript",
        },
    ];
    assert(descriptor_views(t@) =~~= shortcut_table());
    t
}

/// The number of columns in the shortcut list.
pub const COLUMNS: usize = 2;

/// Columns are as wide as their widest entry plus this padding.
pub const COLUMN_PADDING: usize = 4;

/// The minimal number of spaces between the end of a first-column entry and
/// the second column.
pub const COLUMN_GAP: usize = 4;

/// The width of a line, as a `usize` computes it.
pub open spec fn shown_width(l: LineView) -> int {
    capped(line_width(l) as int)
}

/// The widest of the first `n` entries that fall in the first column (those
/// at even positions).
pub open spec fn widest_first_column(entries: Seq<LineView>, n: int) -> int
    decreases n,
{
    if n <= 0 {
        0
    } else {
        let prev = widest_first_column(entries, n - 1);
        if (n - 1) % 2 == 0 && shown_width(entries[n - 1]) > prev {
            shown_width(entries[n - 1])
        } else {
            prev
        }
    }
}

/// `a - b`, or zero where `b` is larger.
pub open spec fn sat_sub(a: int, b: int) -> int {
    if a >= b {
        a - b
    } else {
        0
    }
}

/// The number of rows that `n` entries fill in two columns.
pub open spec fn row_count(n: int) -> int {
    (n + 1) / 2
}

/// The entries, with empty lines added to fill the last row.
pub open spec fn padded_entries(entries: Seq<LineView>) -> Seq<LineView> {
    entries + Seq::new(
        (2 * row_count(entries.len() as int) - entries.len()) as nat,
        |i: int| line_view(Seq::empty()),
    )
}

/// The width of the first column: its widest entry plus the padding.
pub open spec fn first_column_width(entries: Seq<LineView>) -> int {
    capped(widest_first_column(entries, entries.len() as int) + COLUMN_PADDING)
}

/// The spaces after the first entry of row `r`: what the entry lacks of the
/// column width, plus the gap.
pub open spec fn row_padding(entries: Seq<LineView>, r: int) -> int {
    capped(sat_sub(first_column_width(entries), shown_width(entries[2 * r])) + COLUMN_GAP)
}

/// Row `r` of the list: the spans of its first entry, the padding spaces, the
/// spans of its second entry, all dim.
pub open spec fn column_row(entries: Seq<LineView>, r: int) -> LineView {
    dim_line(
        line_view(
            entries[2 * r].spans + seq![
                span_view(
                    Seq::new(row_padding(entries, r) as nat, |i: int| ' '),
                    plain_style(),
                ),
            ] + entries[2 * r + 1].spans,
        ),
    )
}

/// The entries laid out in two aligned columns, row by row.
pub open spec fn columns_view(entries: Seq<LineView>) -> Seq<LineView> {
    let p = padded_entries(entries);
    Seq::new(row_count(entries.len() as int) as nat, |r: int| column_row(p, r))
}

/// Lays the entries out in two columns: entry `2 r` and entry `2 r + 1` share
/// row `r`, and the second column starts at the same place in every row.
pub fn build_columns(entries: Vec<FooterLine>) -> (rows: Vec<FooterLine>)
    requires
        entries.len() < usize::MAX,
    ensures
        line_views(rows@) == columns_view(line_views(entries@)),
{
    let ghost original = line_views(entries@);
    if entries.len() == 0 {
        let rows: Vec<FooterLine> = Vec::new();
        assert(line_views(rows@) =~= columns_view(original));
        return rows;
    }
    let row_total = entries.len() / COLUMNS + if entries.len() % COLUMNS == 0 {
        0
    } else {
        1
    };
    let target_len = row_total * COLUMNS;
    let mut entries = entries;
    while entries.len() < target_len
        invariant
            original.len() <= entries.len() <= target_len,
            target_len == 2 * row_count(original.len() as int),
            line_views(entries@) =~= original + Seq::new(
                (entries.len() - original.len()) as nat,
                |i: int| line_view(Seq::empty()),
            ),
        decreases target_len - entries.len(),
    {
        entries.push(FooterLine::empty());
    }
    let ghost p = line_views(entries@);
    assert(p =~= padded_entries(original));

    let mut column_width: usize = 0;
    let mut idx: usize = 0;
    while idx < entries.len()
        invariant
            idx <= entries.len(),
            p == line_views(entries@),
            column_width == widest_first_column(p, idx as int),
        decreases entries.len() - idx,
    {
        let w = entries[idx].width();
        if idx % COLUMNS == 0 && w > column_width {
            column_width = w;
        }
        idx = idx + 1;
    }
    column_width = column_width.saturating_add(COLUMN_PADDING);
    assert(column_width == first_column_width(p));

    let mut rows: Vec<FooterLine> = Vec::new();
    let mut r: usize = 0;
    while r < row_total
        invariant
            r <= row_total,
            2 * row_total == entries.len(),
            p == line_views(entries@),
            column_width == first_column_width(p),
            line_views(rows@) =~= Seq::new(r as nat, |k: int| column_row(p, k)),
        decreases row_total - r,
    {
        let first = &entries[2 * r];
        let second = &entries[2 * r + 1];
        let mut line = FooterLine::empty();
        line.extend_spans(first);
        let padding = column_width.saturating_sub(first.width()).saturating_add(COLUMN_GAP);
        line.push_span(FooterSpan { content: spaces(padding), style: SpanStyle::plain() });
        line.extend_spans(second);
        let line = line.dim();
        assert(line@ == column_row(p, r as int));
        let ghost before = rows@;
        rows.push(line);
        assert(line_views(rows@) =~= line_views(before).push(column_row(p, r as int)));
        r = r + 1;
    }
    rows
}

/// The line for a shortcut, or an empty line where none of its bindings
/// applies.
pub open spec fn entry_or_empty(d: DescriptorView, state: ShortcutsState) -> LineView {
    match overlay_entry_view(d, state) {
        Some(l) => l,
        None => line_view(Seq::empty()),
    }
}

/// The entries of the shortcut list in order: the first seven shortcuts, an
/// empty entry, then the transcript shortcut.
pub open spec fn overlay_entries(state: ShortcutsState) -> Seq<LineView> {
    let t = shortcut_table();
    seq![
        entry_or_empty(t[0], state),
        entry_or_empty(t[1], state),
        entry_or_empty(t[2], state),
        entry_or_empty(t[3], state),
        entry_or_empty(t[4], state),
        entry_or_empty(t[5], state),
        entry_or_empty(t[6], state),
        line_view(Seq::empty()),
        entry_or_empty(t[7], state),
    ]
}

/// The position of a shortcut in the table.
pub open spec fn table_position(id: ShortcutId) -> int {
    match id {
        ShortcutId::Commands => 0,
        ShortcutId::InsertNewline => 1,
        ShortcutId::FilePaths => 2,
        ShortcutId::PasteImage => 3,
        ShortcutId::TogglePlanMode => 4,
        ShortcutId::EditPrevious => 5,
        ShortcutId::Quit => 6,
        ShortcutId::ShowTranscript => 7,
    }
}

/// The table lists each shortcut once, at its position.
proof fn lemma_table_positions()
    ensures
        shortcut_table().len() == 8,
        forall|k: int| 0 <= k < 8 ==> #[trigger] table_position(shortcut_table()[k].id) == k,
{
    let t = shortcut_table();
    assert(table_position(t[0].id) == 0);
    assert(table_position(t[1].id) == 1);
    assert(table_position(t[2].id) == 2);
    assert(table_position(t[3].id) == 3);
    assert(table_position(t[4].id) == 4);
    assert(table_position(t[5].id) == 5);
    assert(table_position(t[6].id) == 6);
    assert(table_position(t[7].id) == 7);
}

/// The slot of shortcut `k` after the first `i` shortcuts were looked at.
pub open spec fn slot_after(state: ShortcutsState, k: int, i: int) -> LineView {
    if k < i {
        entry_or_empty(shortcut_table()[k], state)
    } else {
        line_view(Seq::empty())
    }
}

/// The lines of the shortcut list: every shortcut that applies, laid out in
/// two columns.
pub fn shortcut_overlay_lines(state: ShortcutsState) -> (lines: Vec<FooterLine>)
    ensures
        line_views(lines@) == columns_view(overlay_entries(state)),
{
    let table = shortcuts();
    proof {
        lemma_table_positions();
        assert(table@.len() == descriptor_views(table@).len());
    }
    let mut commands = FooterLine::empty();
    let mut newline = FooterLine::empty();
    let mut file_paths = FooterLine::empty();
    let mut paste_image = FooterLine::empty();
    let mut toggle_plan_mode = FooterLine::empty();
    let mut edit_previous = FooterLine::empty();
    let mut quit = FooterLine::empty();
    let mut show_transcript = FooterLine::empty();

    let mut i: usize = 0;
    while i < table.len()
        invariant
            i <= table.len(),
            table.len() == 8,
            descriptor_views(table@) == shortcut_table(),
            commands@ == slot_after(state, 0, i as int),
            newline@ == slot_after(state, 1, i as int),
            file_paths@ == slot_after(state, 2, i as int),
            paste_image@ == slot_after(state, 3, i as int),
            toggle_plan_mode@ == slot_after(state, 4, i as int),
            edit_previous@ == slot_after(state, 5, i as int),
            quit@ == slot_after(state, 6, i as int),
            show_transcript@ == slot_after(state, 7, i as int),
        decreases table.len() - i,
    {
        let descriptor = &table[i];
        assert(descriptor@ == shortcut_table()[i as int]);
        proof {
            lemma_table_positions();
        }
        assert(table_position(descriptor.id) == i);
        if let Some(text) = descriptor.overlay_entry(state) {
            match descriptor.id {
                ShortcutId::Commands => commands = text,
                ShortcutId::InsertNewline => newline = text,
                ShortcutId::FilePaths => file_paths = text,
                ShortcutId::PasteImage => paste_image = text,
                ShortcutId::TogglePlanMode => toggle_plan_mode = text,
                ShortcutId::EditPrevious => edit_previous = text,
                ShortcutId::Quit => quit = text,
                ShortcutId::ShowTranscript => show_transcript = text,
            }
        }
        i = i + 1;
    }
    let ordered = vec![
        commands,
        newline,
        file_paths,
        paste_image,
        toggle_plan_mode,
        edit_previous,
        quit,
        FooterLine::empty(),
        show_transcript,
    ];
    assert(line_views(ordered@) =~= overlay_entries(state));
    build_columns(ordered)
}

/// Every shortcut has a binding that applies, whatever the state: the list
/// always names all eight shortcuts.
pub proof fn lemma_every_shortcut_listed(state: ShortcutsState)
    ensures
        forall|k: int| 0 <= k < 8 ==> #[trigger] overlay_entry_view(shortcut_table()[k], state) is Some,
{
    let t = shortcut_table();
    assert(first_match(t[0].bindings, state) is Some);
    assert(first_match(t[1].bindings, state) is Some) by {
        reveal_with_fuel(first_match, 3);
    }
    assert(first_match(t[2].bindings, state) is Some);
    assert(first_match(t[3].bindings, state) is Some) by {
        reveal_with_fuel(first_match, 3);
    }
    assert(first_match(t[4].bindings, state) is Some);
    assert(first_match(t[5].bindings, state) is Some);
    assert(first_match(t[6].bindings, state) is Some);
    assert(first_match(t[7].bindings, state) is Some);
}

/// The newline shortcut is Shift+Enter where the terminal reports it, and
/// Ctrl+J otherwise.
pub proof fn lemma_newline_key(state: ShortcutsState)
    ensures
        first_match(shortcut_table()[1].bindings, state) == Some(
            if state.use_shift_enter_hint {
                binding(shift_binding(KeyCode::Enter), DisplayCondition::WhenShiftEnterHint)
            } else {
                binding(ctrl_binding(KeyCode::Char('j')), DisplayCondition::WhenNotShiftEnterHint)
            },
        ),
{
    reveal_with_fuel(first_match, 3);
}

/// The paste shortcut is Ctrl+Alt+V under WSL and Ctrl+V elsewhere.
pub proof fn lemma_paste_key(state: ShortcutsState)
    ensures
        first_match(shortcut_table()[3].bindings, state) == Some(
            if state.is_wsl {
                binding(ctrl_alt_binding(KeyCode::Char('v')), DisplayCondition::WhenUnderWSL)
            } else {
                binding(ctrl_binding(KeyCode::Char('v')), DisplayCondition::Always)
            },
        ),
{
    reveal_with_fuel(first_match, 3);
}

proof fn lemma_widest_bounds(entries: Seq<LineView>, n: int, i: int)
    requires
        0 <= i < n <= entries.len(),
        i % 2 == 0,
    ensures
        shown_width(entries[i]) <= widest_first_column(entries, n),
    decreases n,
{
    if i < n - 1 {
        lemma_widest_bounds(entries, n - 1, i);
    }
}

/// The two columns line up: in every row, the first entry and the spaces
/// after it take the width of the first column plus the gap, so the second
/// entry starts at the same column in every row (as long as the widest entry
/// leaves room for the padding in a `usize`).
pub proof fn lemma_columns_aligned(entries: Seq<LineView>, r: int)
    requires
        0 <= r < row_count(entries.len() as int),
        widest_first_column(padded_entries(entries), 2 * row_count(entries.len() as int))
            + COLUMN_PADDING + COLUMN_GAP <= usize::MAX,
    ensures
        shown_width(padded_entries(entries)[2 * r]) + row_padding(padded_entries(entries), r)
            == first_column_width(padded_entries(entries)) + COLUMN_GAP,
        columns_view(entries)[r].spans[entries_first_len(entries, r)].text.len() == row_padding(
            padded_entries(entries),
            r,
        ),
{
    let p = padded_entries(entries);
    assert(p.len() == 2 * row_count(entries.len() as int));
    lemma_widest_bounds(p, p.len() as int, 2 * r);
}

/// The number of spans that the first entry of row `r` contributes.
pub open spec fn entries_first_len(entries: Seq<LineView>, r: int) -> int {
    padded_entries(entries)[2 * r].spans.len() as int
}

/// The layout has one row for every two entries (rounding up); each row is
/// dim and holds the spans of its two entries around the padding.
pub proof fn lemma_column_rows(entries: Seq<LineView>, r: int)
    requires
        0 <= r < row_count(entries.len() as int),
    ensures
        columns_view(entries).len() == row_count(entries.len() as int),
        columns_view(entries)[r].style.dim,
        columns_view(entries)[r].spans == padded_entries(entries)[2 * r].spans + seq![
            columns_view(entries)[r].spans[entries_first_len(entries, r)],
        ] + padded_entries(entries)[2 * r + 1].spans,
        2 * r + 1 < entries.len() ==> padded_entries(entries)[2 * r + 1] == entries[2 * r + 1],
        padded_entries(entries)[2 * r] == entries[2 * r],
{
    let p = padded_entries(entries);
    assert(p.len() == 2 * row_count(entries.len() as int));
    let row = columns_view(entries)[r];
    assert(row.spans[entries_first_len(entries, r)] == span_view(
        Seq::new(row_padding(p, r) as nat, |i: int| ' '),
        plain_style(),
    ));
    assert(row.spans =~= p[2 * r].spans + seq![row.spans[entries_first_len(entries, r)]] + p[2
        * r + 1].spans);
}

/// The shortcut list takes five rows: the eight shortcuts and one empty
/// entry, two to a row.
pub proof fn lemma_overlay_rows(state: ShortcutsState)
    ensures
        columns_view(overlay_entries(state)).len() == 5,
{
}

} // verus!
