//! The lines of the footer in each mode.
use vstd::prelude::*;
use crate::keys::{
    KeyBinding, KeyCode, ctrl, ctrl_alt_binding, ctrl_binding, key_hint_view, plain,
    plain_binding, shift_binding,
};
use crate::mode::FooterMode;
use crate::shortcuts::{
    ShortcutsState, columns_view, lemma_column_rows, lemma_every_shortcut_listed,
    lemma_newline_key, lemma_paste_key, overlay_entries, overlay_entry_view, shortcut_overlay_lines,
    shortcut_table,
};
use crate::text::{
    Color, FooterLine, FooterSpan, LineView, SpanStyle, SpanView, decimal, decimal_string,
    dim_line, dim_style, fg_bold_style, fg_style, line_view, line_views, plain_style, span_view,
};

verus! {

/// The collaboration mode the session runs in.
#[derive(Clone, Copy, Debug, PartialEq, Eq)]
pub enum Mode {
    Plan,
    Default,
    AcceptEdits,
}

/// How much reasoning the model is asked for.
#[derive(Clone, Copy, Debug, PartialEq, Eq)]
pub enum ReasoningEffort {
    /// No reasoning (labelled "none").
    Off,
    Minimal,
    Low,
    Medium,
    High,
    XHigh,
}

/// The sandbox that commands run in (only which kind it is matters here).
#[derive(Clone, Copy, Debug, PartialEq, Eq)]
pub enum SandboxPolicy {
    ReadOnly,
    WorkspaceWrite,
    DangerFullAccess,
    ExternalSandbox,
}

/// The outcome of copying the transcript selection.
#[derive(Clone, Copy, Debug, PartialEq, Eq)]
pub enum TranscriptCopyFeedback {
    Copied,
    Failed,
}

/// One rate-limit window.
#[derive(Clone, Debug)]
pub struct RateLimitWindowDisplay {
    /// The share of the window that is left, in percent: `100 - used`,
    /// rounded to the nearest integer (not yet clamped).
    pub remaining_percent: i64,
    /// When the window resets, already formatted ("14:30").
    pub resets_at: Option<String>,
}

/// The rate-limit windows known for the account.
#[derive(Clone, Debug)]
pub struct RateLimitSnapshotDisplay {
    /// The short (five-hour) window.
    pub primary: Option<RateLimitWindowDisplay>,
    /// The weekly window.
    pub secondary: Option<RateLimitWindowDisplay>,
}

/// The " · " separator, dim.
pub open spec fn separator() -> SpanView {
    span_view(" · "@, dim_style())
}

/// `value` clamped to `0..=100`.
pub open spec fn clamp_percent(value: int) -> int {
    if value < 0 {
        0
    } else if value > 100 {
        100
    } else {
        value
    }
}

fn clamp_percent_exec(value: i64) -> (r: i64)
    ensures
        r == clamp_percent(value as int),
{
    if value < 0 {
        0
    } else if value > 100 {
        100
    } else {
        value
    }
}

/// The style of the quota: red at 10% or less, yellow at 25% or less, dim
/// otherwise.
pub open spec fn quota_style(remaining: int) -> SpanStyle {
    if remaining <= 10 {
        fg_style(Color::Red)
    } else if remaining <= 25 {
        fg_style(Color::Yellow)
    } else {
        dim_style()
    }
}

/// The window the footer reports: the primary one if known, else the weekly
/// one.
pub open spec fn quota_window(snapshot: RateLimitSnapshotDisplay) -> Option<RateLimitWindowDisplay> {
    match snapshot.primary {
        Some(w) => Some(w),
        None => snapshot.secondary,
    }
}

/// The quota text: "14:30 · 70%", or "70%" without a reset time.
pub open spec fn quota_text(w: RateLimitWindowDisplay) -> Seq<char> {
    let remaining = decimal(clamp_percent(w.remaining_percent as int) as nat) + "%"@;
    match w.resets_at {
        Some(t) => t@ + " · "@ + remaining,
        None => remaining,
    }
}

pub open spec fn quota_view(snapshot: RateLimitSnapshotDisplay) -> Option<SpanView> {
    match quota_window(snapshot) {
        None => None,
        Some(w) => Some(
            span_view(quota_text(w), quota_style(clamp_percent(w.remaining_percent as int))),
        ),
    }
}

/// The rate-limit quota for the footer: the reset time and the remaining
/// percentage (e.g. "14:30 · 70%"), colored by how little is left. The
/// primary (five-hour) window comes first, then the weekly one; without
/// either there is nothing to show.
pub fn format_rate_limit_quota(snapshot: &RateLimitSnapshotDisplay) -> (r: Option<FooterSpan>)
    ensures
        match r {
            Some(s) => quota_view(*snapshot) == Some(s@),
            None => quota_view(*snapshot) is None,
        },
{
    let window = match &snapshot.primary {
        Some(w) => w,
        None => match &snapshot.secondary {
            Some(w) => w,
            None => return None,
        },
    };
    let remaining = clamp_percent_exec(window.remaining_percent);
    let style = if remaining <= 10 {
        SpanStyle::colored(Color::Red)
    } else if remaining <= 25 {
        SpanStyle::colored(Color::Yellow)
    } else {
        SpanStyle::dimmed()
    };
    let mut percent = decimal_string(remaining as u64);
    percent.append("%");
    let text = match &window.resets_at {
        Some(reset_time) => {
            let mut t = reset_time.clone();
            t.append(" · ");
            t.append(percent.as_str());
            t
        },
        None => percent,
    };
    let span = FooterSpan { content: text, style };
    assert(span@.text =~= quota_text(*window));
    Some(span)
}

/// What the Ctrl+C reminder depends on.
#[derive(Clone, Copy, Debug)]
pub struct CtrlCReminderState {
    pub is_task_running: bool,
}

/// "ctrl + c again to interrupt" while a task runs, "... to quit" otherwise.
pub open spec fn ctrl_c_reminder_view(state: CtrlCReminderState) -> LineView {
    let action = if state.is_task_running {
        "interrupt"@
    } else {
        "quit"@
    };
    dim_line(
        line_view(
            seq![
                key_hint_view(ctrl_binding(KeyCode::Char('c'))),
                span_view(" again to "@ + action, plain_style()),
            ],
        ),
    )
}

/// The Ctrl+C reminder line.
pub fn ctrl_c_reminder_line(state: CtrlCReminderState) -> (l: FooterLine)
    ensures
        l@ == ctrl_c_reminder_view(state),
{
    let action = if state.is_task_running {
        "interrupt"
    } else {
        "quit"
    };
    let mut text = String::from_str(" again to ");
    text.append(action);
    let mut line = FooterLine::empty();
    line.push_span(ctrl(KeyCode::Char('c')).hint_span());
    line.push_span(FooterSpan { content: text, style: SpanStyle::plain() });
    let line = line.dim();
    assert(line@ =~= ctrl_c_reminder_view(state));
    line
}

/// "esc again to edit previous message" once Esc was pressed, otherwise
/// "esc esc to edit previous message".
pub open spec fn esc_hint_view(esc_backtrack_hint: bool) -> LineView {
    let esc = key_hint_view(plain_binding(KeyCode::Esc));
    if esc_backtrack_hint {
        dim_line(line_view(seq![esc, span_view(" again to edit previous message"@, plain_style())]))
    } else {
        dim_line(
            line_view(
                seq![
                    esc,
                    span_view(" "@, plain_style()),
                    esc,
                    span_view(" to edit previous message"@, plain_style()),
                ],
            ),
        )
    }
}

/// The Esc hint line.
pub fn esc_hint_line(esc_backtrack_hint: bool) -> (l: FooterLine)
    ensures
        l@ == esc_hint_view(esc_backtrack_hint),
{
    let esc = plain(KeyCode::Esc);
    let mut line = FooterLine::empty();
    if esc_backtrack_hint {
        line.push_span(esc.hint_span());
        line.push_span(FooterSpan::raw(" again to edit previous message"));
    } else {
        line.push_span(esc.hint_span());
        line.push_span(FooterSpan::raw(" "));
        line.push_span(esc.hint_span());
        line.push_span(FooterSpan::raw(" to edit previous message"));
    }
    let line = line.dim();
    assert(line@ =~= esc_hint_view(esc_backtrack_hint));
    line
}

/// The context indicator: the share of the context window left (clamped to
/// `0..=100`), else the tokens used, else "100% context left"; followed by
/// the rate-limit quota when there is one.
pub open spec fn context_window_view(
    percent: Option<i64>,
    used_tokens_label: Option<Seq<char>>,
    rate_limit_snapshot: Option<RateLimitSnapshotDisplay>,
) -> LineView {
    let first = match percent {
        Some(p) => span_view(decimal(clamp_percent(p as int) as nat) + "% context left"@, dim_style()),
        None => match used_tokens_label {
            Some(t) => span_view(t + " used"@, dim_style()),
            None => span_view("100% context left"@, dim_style()),
        },
    };
    let quota = match rate_limit_snapshot {
        Some(s) => quota_view(s),
        None => None,
    };
    match quota {
        Some(q) => line_view(seq![first, separator(), q]),
        None => line_view(seq![first]),
    }
}

/// The context indicator line. `used_tokens_label` is the number of tokens
/// used, already in compact form ("123K").
pub fn context_window_line(
    percent: Option<i64>,
    used_tokens_label: Option<&str>,
    rate_limit_snapshot: Option<&RateLimitSnapshotDisplay>,
) -> (l: FooterLine)
    ensures
        l@ == context_window_view(
            percent,
            match used_tokens_label {
                Some(t) => Some(t@),
                None => None,
            },
            match rate_limit_snapshot {
                Some(s) => Some(*s),
                None => None,
            },
        ),
{
    let mut line = FooterLine::empty();
    match percent {
        Some(p) => {
            let p = clamp_percent_exec(p);
            let mut text = decimal_string(p as u64);
            text.append("% context left");
            line.push_span(FooterSpan { content: text, style: SpanStyle::dimmed() });
        },
        None => match used_tokens_label {
            Some(t) => {
                let mut text = String::from_str(t);
                text.append(" used");
                line.push_span(FooterSpan { content: text, style: SpanStyle::dimmed() });
            },
            None => line.push_span(FooterSpan::dim("100% context left")),
        },
    }
    let quota = match rate_limit_snapshot {
        Some(s) => format_rate_limit_quota(s),
        None => None,
    };
    if let Some(quota_span) = quota {
        line.push_span(FooterSpan::dim(" · "));
        line.push_span(quota_span);
    }
    line
}

/// The label of the collaboration mode, bold and colored.
pub open spec fn mode_label_view(mode: Mode) -> SpanView {
    match mode {
        Mode::Plan => span_view("Plan"@, fg_bold_style(Color::Yellow)),
        Mode::Default => span_view("Default"@, fg_bold_style(Color::Green)),
        Mode::AcceptEdits => span_view("Accept edits"@, fg_bold_style(Color::Magenta)),
    }
}

pub open spec fn effort_label(effort: ReasoningEffort) -> Seq<char> {
    match effort {
        ReasoningEffort::Off => "none"@,
        ReasoningEffort::Minimal => "minimal"@,
        ReasoningEffort::Low => "low"@,
        ReasoningEffort::Medium => "medium"@,
        ReasoningEffort::High => "high"@,
        ReasoningEffort::XHigh => "x-high"@,
    }
}

pub open spec fn sandbox_label(policy: SandboxPolicy) -> Seq<char> {
    match policy {
        SandboxPolicy::ReadOnly => "read-only"@,
        SandboxPolicy::WorkspaceWrite => "project"@,
        SandboxPolicy::DangerFullAccess => "full-access"@,
        SandboxPolicy::ExternalSandbox => "external"@,
    }
}

/// The spans put in front of a line: mode, model (cyan), reasoning effort
/// and sandbox when known (dim), each followed by a separator.
pub open spec fn mode_label_spans(
    operation_mode: Mode,
    model_name: Seq<char>,
    reasoning_effort: Option<ReasoningEffort>,
    sandbox_policy: Option<SandboxPolicy>,
) -> Seq<SpanView> {
    seq![
        mode_label_view(operation_mode),
        separator(),
        span_view(model_name, fg_style(Color::Cyan)),
    ] + match reasoning_effort {
        Some(e) => seq![separator(), span_view(effort_label(e), dim_style())],
        None => Seq::empty(),
    } + match sandbox_policy {
        Some(p) => seq![separator(), span_view(sandbox_label(p), dim_style())],
        None => Seq::empty(),
    } + seq![separator()]
}

/// Puts the mode label in front of a line; the line keeps its spans and
/// takes the plain line style.
pub fn prepend_mode_label(
    line: &mut FooterLine,
    operation_mode: Mode,
    model_name: &str,
    reasoning_effort: Option<ReasoningEffort>,
    sandbox_policy: Option<SandboxPolicy>,
)
    ensures
        final(line)@ == line_view(
            mode_label_spans(operation_mode, model_name@, reasoning_effort, sandbox_policy)
                + old(line)@.spans,
        ),
{
    let label = match operation_mode {
        Mode::Plan => FooterSpan::styled("Plan", SpanStyle::colored_bold(Color::Yellow)),
        Mode::Default => FooterSpan::styled("Default", SpanStyle::colored_bold(Color::Green)),
        Mode::AcceptEdits => FooterSpan::styled(
            "Accept edits",
            SpanStyle::colored_bold(Color::Magenta),
        ),
    };
    let mut result = FooterLine::empty();
    result.push_span(label);
    result.push_span(FooterSpan::dim(" · "));
    result.push_span(FooterSpan::styled(model_name, SpanStyle::colored(Color::Cyan)));
    if let Some(effort) = reasoning_effort {
        let effort_text = match effort {
            ReasoningEffort::Off => "none",
            ReasoningEffort::Minimal => "minimal",
            ReasoningEffort::Low => "low",
            ReasoningEffort::Medium => "medium",
            ReasoningEffort::High => "high",
            ReasoningEffort::XHigh => "x-high",
        };
        result.push_span(FooterSpan::dim(" · "));
        result.push_span(FooterSpan::dim(effort_text));
    }
    if let Some(policy) = sandbox_policy {
        let sandbox_text = match policy {
            SandboxPolicy::ReadOnly => "read-only",
            SandboxPolicy::WorkspaceWrite => "project",
            SandboxPolicy::DangerFullAccess => "full-access",
            SandboxPolicy::ExternalSandbox => "external",
        };
        result.push_span(FooterSpan::dim(" · "));
        result.push_span(FooterSpan::dim(sandbox_text));
    }
    result.push_span(FooterSpan::dim(" · "));
    assert(result@.spans =~= mode_label_spans(
        operation_mode,
        model_name@,
        reasoning_effort,
        sandbox_policy,
    ));
    result.extend_spans(line);
    *line = result;
}

/// "Copied" in bold green, or "Copy failed" in bold red.
pub open spec fn feedback_view(feedback: TranscriptCopyFeedback) -> SpanView {
    match feedback {
        TranscriptCopyFeedback::Copied => span_view("Copied"@, fg_bold_style(Color::Green)),
        TranscriptCopyFeedback::Failed => span_view("Copy failed"@, fg_bold_style(Color::Red)),
    }
}

/// The lines with the copy feedback appended to the first line, when there
/// is feedback and a first line.
pub open spec fn with_copy_feedback(
    lines: Seq<LineView>,
    feedback: Option<TranscriptCopyFeedback>,
) -> Seq<LineView> {
    match feedback {
        Some(f) => if lines.len() > 0 {
            lines.update(
                0,
                LineView {
                    spans: lines[0].spans + seq![separator(), feedback_view(f)],
                    style: lines[0].style,
                },
            )
        } else {
            lines
        },
        None => lines,
    }
}

fn apply_copy_feedback(lines: &mut Vec<FooterLine>, feedback: Option<TranscriptCopyFeedback>)
    ensures
        line_views(final(lines)@) == with_copy_feedback(line_views(old(lines)@), feedback),
{
    if lines.len() == 0 {
        return;
    }
    let feedback = match feedback {
        Some(f) => f,
        None => return,
    };
    let mut first = lines[0].duplicate();
    first.push_span(FooterSpan::dim(" · "));
    match feedback {
        TranscriptCopyFeedback::Copied => first.push_span(
            FooterSpan::styled("Copied", SpanStyle::colored_bold(Color::Green)),
        ),
        TranscriptCopyFeedback::Failed => first.push_span(
            FooterSpan::styled("Copy failed", SpanStyle::colored_bold(Color::Red)),
        ),
    }
    let ghost before = lines@;
    assert(first@ =~= (LineView {
        spans: before[0]@.spans + seq![separator(), feedback_view(feedback)],
        style: before[0]@.style,
    }));
    lines.set(0, first);
    assert(line_views(lines@) =~= with_copy_feedback(line_views(before), Some(feedback)));
}

/// Everything the footer shows depends on.
#[derive(Clone, Debug)]
pub struct FooterProps {
    pub mode: FooterMode,
    pub esc_backtrack_hint: bool,
    pub use_shift_enter_hint: bool,
    pub is_task_running: bool,
    pub operation_mode: Mode,
    pub model_name: String,
    pub reasoning_effort: Option<ReasoningEffort>,
    pub sandbox_policy: Option<SandboxPolicy>,
    pub context_window_percent: Option<i64>,
    /// The tokens used in the context window, already in compact form.
    pub context_window_used_tokens_label: Option<String>,
    pub rate_limit_snapshot: Option<RateLimitSnapshotDisplay>,
    pub transcript_scrolled: bool,
    pub transcript_selection_active: bool,
    /// The visible position in the transcript: (current, total).
    pub transcript_scroll_position: Option<(usize, usize)>,
    pub transcript_copy_selection_key: KeyBinding,
    pub transcript_copy_feedback: Option<TranscriptCopyFeedback>,
}

pub open spec fn label_view(label: Option<String>) -> Option<Seq<char>> {
    match label {
        Some(t) => Some(t@),
        None => None,
    }
}

/// The context indicator for these props.
pub open spec fn props_context_view(props: FooterProps) -> LineView {
    context_window_view(
        props.context_window_percent,
        label_view(props.context_window_used_tokens_label),
        props.rate_limit_snapshot,
    )
}

/// The hints shown while the transcript is scrolled: page keys to scroll,
/// Home/End to jump, and the position when known.
pub open spec fn scroll_hint_spans(position: Option<(usize, usize)>) -> Seq<SpanView> {
    seq![
        separator(),
        key_hint_view(plain_binding(KeyCode::PageUp)),
        span_view("/"@, plain_style()),
        key_hint_view(plain_binding(KeyCode::PageDown)),
        span_view(" scroll"@, dim_style()),
        separator(),
        key_hint_view(plain_binding(KeyCode::Home)),
        span_view("/"@, plain_style()),
        key_hint_view(plain_binding(KeyCode::End)),
        span_view(" jump"@, dim_style()),
    ] + match position {
        Some((current, total)) => seq![
            separator(),
            span_view(decimal(current as nat) + "/"@ + decimal(total as nat), dim_style()),
        ],
        None => Seq::empty(),
    }
}

/// The summary line: context indicator, "? for shortcuts", then the scroll
/// and copy hints when they apply.
pub open spec fn summary_line_view(props: FooterProps) -> LineView {
    let base = props_context_view(props);
    LineView {
        spans: base.spans + seq![
            separator(),
            key_hint_view(plain_binding(KeyCode::Char('?'))),
            span_view(" for shortcuts"@, dim_style()),
        ] + (if props.transcript_scrolled {
            scroll_hint_spans(props.transcript_scroll_position)
        } else {
            Seq::empty()
        }) + (if props.transcript_selection_active {
            seq![
                separator(),
                key_hint_view(props.transcript_copy_selection_key),
                span_view(" copy selection"@, dim_style()),
            ]
        } else {
            Seq::empty()
        }),
        style: base.style,
    }
}

/// The state the shortcut list depends on.
pub open spec fn shortcuts_state(props: FooterProps, is_wsl: bool) -> ShortcutsState {
    ShortcutsState {
        use_shift_enter_hint: props.use_shift_enter_hint,
        esc_backtrack_hint: props.esc_backtrack_hint,
        is_wsl,
    }
}

/// The lines of each mode, before the mode label and the copy feedback.
pub open spec fn mode_lines(props: FooterProps, is_wsl: bool) -> Seq<LineView> {
    match props.mode {
        FooterMode::CtrlCReminder => seq![
            ctrl_c_reminder_view(CtrlCReminderState { is_task_running: props.is_task_running }),
        ],
        FooterMode::ShortcutSummary => seq![summary_line_view(props)],
        FooterMode::ShortcutOverlay => columns_view(overlay_entries(shortcuts_state(props, is_wsl))),
        FooterMode::EscHint => seq![esc_hint_view(props.esc_backtrack_hint)],
        FooterMode::ContextOnly => seq![props_context_view(props)],
    }
}

/// The lines with the mode label in front of the first one, in the two
/// modes that show the context indicator.
pub open spec fn with_mode_label(lines: Seq<LineView>, props: FooterProps) -> Seq<LineView> {
    if (props.mode == FooterMode::ShortcutSummary || props.mode == FooterMode::ContextOnly)
        && lines.len() > 0 {
        lines.update(
            0,
            line_view(
                mode_label_spans(
                    props.operation_mode,
                    props.model_name@,
                    props.reasoning_effort,
                    props.sandbox_policy,
                ) + lines[0].spans,
            ),
        )
    } else {
        lines
    }
}

/// The footer: the lines of the mode, the mode label where the context
/// indicator shows, and the copy feedback at the end of the first line.
pub open spec fn footer_view(props: FooterProps, is_wsl: bool) -> Seq<LineView> {
    with_copy_feedback(
        with_mode_label(mode_lines(props, is_wsl), props),
        props.transcript_copy_feedback,
    )
}

fn summary_line(props: &FooterProps) -> (l: FooterLine)
    ensures
        l@ == summary_line_view(*props),
{
    let mut line = context_window_line(
        props.context_window_percent,
        match &props.context_window_used_tokens_label {
            Some(t) => Some(t.as_str()),
            None => None,
        },
        match &props.rate_limit_snapshot {
            Some(s) => Some(s),
            None => None,
        },
    );
    line.push_span(FooterSpan::dim(" · "));
    line.push_span(plain(KeyCode::Char('?')).hint_span());
    line.push_span(FooterSpan::dim(" for shortcuts"));
    let ghost after_shortcuts = line@.spans;
    if props.transcript_scrolled {
        line.push_span(FooterSpan::dim(" · "));
        line.push_span(plain(KeyCode::PageUp).hint_span());
        line.push_span(FooterSpan::raw("/"));
        line.push_span(plain(KeyCode::PageDown).hint_span());
        line.push_span(FooterSpan::dim(" scroll"));
        line.push_span(FooterSpan::dim(" · "));
        line.push_span(plain(KeyCode::Home).hint_span());
        line.push_span(FooterSpan::raw("/"));
        line.push_span(plain(KeyCode::End).hint_span());
        line.push_span(FooterSpan::dim(" jump"));
        if let Some((current, total)) = props.transcript_scroll_position {
            line.push_span(FooterSpan::dim(" · "));
            let mut text = decimal_string(current as u64);
            text.append("/");
            let total_text = decimal_string(total as u64);
            text.append(total_text.as_str());
            line.push_span(FooterSpan { content: text, style: SpanStyle::dimmed() });
        }
        assert(line@.spans =~= after_shortcuts + scroll_hint_spans(
            props.transcript_scroll_position,
        ));
    }
    if props.transcript_selection_active {
        line.push_span(FooterSpan::dim(" · "));
        line.push_span(props.transcript_copy_selection_key.hint_span());
        line.push_span(FooterSpan::dim(" copy selection"));
    }
    assert(line@ =~= summary_line_view(*props));
    line
}

fn props_context_line(props: &FooterProps) -> (l: FooterLine)
    ensures
        l@ == props_context_view(*props),
{
    context_window_line(
        props.context_window_percent,
        match &props.context_window_used_tokens_label {
            Some(t) => Some(t.as_str()),
            None => None,
        },
        match &props.rate_limit_snapshot {
            Some(s) => Some(s),
            None => None,
        },
    )
}

/// The lines of the footer for `props`. `is_wsl` tells whether the program
/// runs under the Windows Subsystem for Linux, which changes the paste
/// shortcut in the list.
pub fn footer_lines(props: &FooterProps, is_wsl: bool) -> (lines: Vec<FooterLine>)
    ensures
        line_views(lines@) == footer_view(*props, is_wsl),
{
    // The context indicator comes first, before the hint, and also shows
    // while typing (ContextOnly); only the other modes go without it.
    let mut lines: Vec<FooterLine> = match props.mode {
        FooterMode::CtrlCReminder => vec![
            ctrl_c_reminder_line(CtrlCReminderState { is_task_running: props.is_task_running }),
        ],
        FooterMode::ShortcutSummary => vec![summary_line(props)],
        FooterMode::ShortcutOverlay => {
            let state = ShortcutsState {
                use_shift_enter_hint: props.use_shift_enter_hint,
                esc_backtrack_hint: props.esc_backtrack_hint,
                is_wsl,
            };
            shortcut_overlay_lines(state)
        },
        FooterMode::EscHint => vec![esc_hint_line(props.esc_backtrack_hint)],
        FooterMode::ContextOnly => vec![props_context_line(props)],
    };
    assert(line_views(lines@) =~= mode_lines(*props, is_wsl));
    let ghost plain_lines = line_views(lines@);
    if matches!(props.mode, FooterMode::ShortcutSummary | FooterMode::ContextOnly) && lines.len() > 0 {
        let mut first = lines[0].duplicate();
        prepend_mode_label(
            &mut first,
            props.operation_mode,
            props.model_name.as_str(),
            props.reasoning_effort,
            props.sandbox_policy,
        );
        lines.set(0, first);
        assert(line_views(lines@) =~= with_mode_label(plain_lines, *props));
    } else {
        assert(line_views(lines@) =~= with_mode_label(plain_lines, *props));
    }
    apply_copy_feedback(&mut lines, props.transcript_copy_feedback);
    lines
}

/// The shortcut list takes five rows; every other footer takes one line.
pub proof fn lemma_footer_line_count(props: FooterProps, is_wsl: bool)
    ensures
        footer_view(props, is_wsl).len() == if props.mode == FooterMode::ShortcutOverlay {
            5int
        } else {
            1int
        },
{
    let lines = mode_lines(props, is_wsl);
    if props.mode == FooterMode::ShortcutOverlay {
        assert(overlay_entries(shortcuts_state(props, is_wsl)).len() == 9);
    }
    assert(with_mode_label(lines, props).len() == lines.len());
}

/// In the summary and while typing, the footer is one line that starts with
/// the mode label followed by the context indicator, so the indicator stays
/// visible in both.
pub proof fn lemma_context_indicator_shown(props: FooterProps, is_wsl: bool)
    requires
        props.mode == FooterMode::ShortcutSummary || props.mode == FooterMode::ContextOnly,
    ensures
        footer_view(props, is_wsl).len() == 1,
        footer_view(props, is_wsl)[0].spans.subrange(
            0,
            mode_label_spans(
                props.operation_mode,
                props.model_name@,
                props.reasoning_effort,
                props.sandbox_policy,
            ).len() + props_context_view(props).spans.len() as int,
        ) == mode_label_spans(
            props.operation_mode,
            props.model_name@,
            props.reasoning_effort,
            props.sandbox_policy,
        ) + props_context_view(props).spans,
{
    let label = mode_label_spans(
        props.operation_mode,
        props.model_name@,
        props.reasoning_effort,
        props.sandbox_policy,
    );
    let ctx = props_context_view(props).spans;
    let first = footer_view(props, is_wsl)[0].spans;
    assert(first.subrange(0, label.len() + ctx.len() as int) =~= label + ctx);
}

/// Copy feedback ends the first line, after a separator; every other line,
/// and the rest of the first line, is as it would be without feedback.
pub proof fn lemma_copy_feedback_last(props: FooterProps, is_wsl: bool, f: TranscriptCopyFeedback)
    requires
        props.transcript_copy_feedback == Some(f),
    ensures
        ({
            let with = footer_view(props, is_wsl);
            let without = footer_view(
                FooterProps { transcript_copy_feedback: None, ..props },
                is_wsl,
            );
            &&& with.len() == without.len()
            &&& with[0].spans == without[0].spans + seq![separator(), feedback_view(f)]
            &&& with[0].style == without[0].style
            &&& forall|i: int| 1 <= i < with.len() ==> with[i] == without[i]
        }),
{
    lemma_footer_line_count(props, is_wsl);
    let q = FooterProps { transcript_copy_feedback: None, ..props };
    assert(mode_lines(q, is_wsl) == mode_lines(props, is_wsl));
    assert(with_mode_label(mode_lines(q, is_wsl), q) == with_mode_label(
        mode_lines(props, is_wsl),
        props,
    ));
}

/// In the shortcut list, the keys named for newline and for pasting an image
/// follow the caller's state: Shift+Enter where the terminal reports it (else
/// Ctrl+J), and Ctrl+Alt+V under WSL (else Ctrl+V). Each stands in the
/// second column, after the one-span prefix of its entry.
pub proof fn lemma_overlay_keys_follow_state(props: FooterProps, is_wsl: bool)
    requires
        props.mode == FooterMode::ShortcutOverlay,
    ensures
        footer_view(props, is_wsl).len() == 5,
        footer_view(props, is_wsl)[0].spans[5] == key_hint_view(
            if props.use_shift_enter_hint {
                shift_binding(KeyCode::Enter)
            } else {
                ctrl_binding(KeyCode::Char('j'))
            },
        ),
        footer_view(props, is_wsl)[1].spans[5] == key_hint_view(
            if is_wsl {
                ctrl_alt_binding(KeyCode::Char('v'))
            } else {
                ctrl_binding(KeyCode::Char('v'))
            },
        ),
{
    let st = shortcuts_state(props, is_wsl);
    let entries = overlay_entries(st);
    let t = shortcut_table();
    lemma_footer_line_count(props, is_wsl);
    lemma_every_shortcut_listed(st);
    lemma_newline_key(st);
    lemma_paste_key(st);
    assert(entries.len() == 9);
    assert(overlay_entry_view(t[0], st) is Some);
    assert(overlay_entry_view(t[1], st) is Some);
    assert(overlay_entry_view(t[2], st) is Some);
    assert(overlay_entry_view(t[3], st) is Some);
    assert(entries[0].spans.len() == 3);
    assert(entries[2].spans.len() == 3);
    assert(entries[1].spans[1] == key_hint_view(
        if props.use_shift_enter_hint {
            shift_binding(KeyCode::Enter)
        } else {
            ctrl_binding(KeyCode::Char('j'))
        },
    ));
    assert(entries[3].spans[1] == key_hint_view(
        if is_wsl {
            ctrl_alt_binding(KeyCode::Char('v'))
        } else {
            ctrl_binding(KeyCode::Char('v'))
        },
    ));
    lemma_column_rows(entries, 0);
    lemma_column_rows(entries, 1);
    let rows = columns_view(entries);
    assert(rows[0].spans[5] == entries[1].spans[1]);
    assert(rows[1].spans[5] == entries[3].spans[1]);
    assert(mode_lines(props, is_wsl) == rows);
    assert(with_mode_label(rows, props) == rows);
}

/// The list entry for editing the previous message says the same as the Esc
/// hint line for the same state, after the entry's empty prefix: before Esc
/// was pressed it names Esc twice ("esc esc to edit previous message"), and
/// only once Esc was pressed does it read "esc again to ...".
pub proof fn lemma_edit_previous_entry(state: ShortcutsState)
    ensures
        overlay_entry_view(shortcut_table()[5], state) == Some(
            line_view(
                seq![span_view(""@, plain_style())] + esc_hint_view(
                    state.esc_backtrack_hint,
                ).spans,
            ),
        ),
        !state.esc_backtrack_hint ==> {
            let spans = overlay_entry_view(shortcut_table()[5], state).unwrap().spans;
            &&& spans.len() == 5
            &&& spans[1] == key_hint_view(plain_binding(KeyCode::Esc))
            &&& spans[3] == key_hint_view(plain_binding(KeyCode::Esc))
        },
        state.esc_backtrack_hint ==> overlay_entry_view(shortcut_table()[5], state).unwrap().spans.len()
            == 3,
{
    let e = overlay_entry_view(shortcut_table()[5], state).unwrap();
    assert(e.spans =~= seq![span_view(""@, plain_style())] + esc_hint_view(
        state.esc_backtrack_hint,
    ).spans);
}

/// The copy-selection hint ends the summary line exactly when a selection is
/// active, whether or not the transcript is scrolled; scrolling adds its own
/// hints, and with neither the line is the mode label, the context indicator
/// and "? for shortcuts".
pub proof fn lemma_summary_hints(props: FooterProps, is_wsl: bool)
    requires
        props.mode == FooterMode::ShortcutSummary,
        props.transcript_copy_feedback is None,
    ensures
        ({
            let on = FooterProps { transcript_selection_active: true, ..props };
            let off = FooterProps { transcript_selection_active: false, ..props };
            let bare = FooterProps {
                transcript_selection_active: false,
                transcript_scrolled: false,
                ..props
            };
            &&& footer_view(on, is_wsl).len() == 1
            &&& footer_view(off, is_wsl).len() == 1
            &&& footer_view(on, is_wsl)[0].spans == footer_view(off, is_wsl)[0].spans + seq![
                separator(),
                key_hint_view(props.transcript_copy_selection_key),
                span_view(" copy selection"@, dim_style()),
            ]
            &&& footer_view(off, is_wsl)[0].spans == footer_view(bare, is_wsl)[0].spans + (
            if props.transcript_scrolled {
                scroll_hint_spans(props.transcript_scroll_position)
            } else {
                Seq::empty()
            })
            &&& footer_view(bare, is_wsl)[0].spans == mode_label_spans(
                props.operation_mode,
                props.model_name@,
                props.reasoning_effort,
                props.sandbox_policy,
            ) + props_context_view(props).spans + seq![
                separator(),
                key_hint_view(plain_binding(KeyCode::Char('?'))),
                span_view(" for shortcuts"@, dim_style()),
            ]
        }),
{
    let on = FooterProps { transcript_selection_active: true, ..props };
    let off = FooterProps { transcript_selection_active: false, ..props };
    let bare = FooterProps {
        transcript_selection_active: false,
        transcript_scrolled: false,
        ..props
    };
    lemma_footer_line_count(on, is_wsl);
    lemma_footer_line_count(off, is_wsl);
    lemma_footer_line_count(bare, is_wsl);
    let label = mode_label_spans(
        props.operation_mode,
        props.model_name@,
        props.reasoning_effort,
        props.sandbox_policy,
    );
    assert(props_context_view(on) == props_context_view(props));
    assert(props_context_view(off) == props_context_view(props));
    assert(props_context_view(bare) == props_context_view(props));
    assert(footer_view(on, is_wsl)[0].spans =~= label + summary_line_view(on).spans);
    assert(footer_view(off, is_wsl)[0].spans =~= label + summary_line_view(off).spans);
    assert(footer_view(bare, is_wsl)[0].spans =~= label + summary_line_view(bare).spans);
    assert(footer_view(on, is_wsl)[0].spans =~= footer_view(off, is_wsl)[0].spans + seq![
        separator(),
        key_hint_view(props.transcript_copy_selection_key),
        span_view(" copy selection"@, dim_style()),
    ]);
    assert(footer_view(off, is_wsl)[0].spans =~= footer_view(bare, is_wsl)[0].spans + (
    if props.transcript_scrolled {
        scroll_hint_spans(props.transcript_scroll_position)
    } else {
        Seq::empty()
    }));
    assert(footer_view(bare, is_wsl)[0].spans =~= label + props_context_view(props).spans + seq![
        separator(),
        key_hint_view(plain_binding(KeyCode::Char('?'))),
        span_view(" for shortcuts"@, dim_style()),
    ]);
}

/// The quota follows the context indicator whenever there is one to show,
/// whichever indicator it is (share left, tokens used, or the default); the
/// indicator itself does not depend on the quota.
pub proof fn lemma_quota_follows_indicator(
    percent: Option<i64>,
    used_tokens_label: Option<Seq<char>>,
    snapshot: RateLimitSnapshotDisplay,
)
    ensures
        context_window_view(percent, used_tokens_label, None).spans.len() == 1,
        match quota_view(snapshot) {
            Some(q) => context_window_view(percent, used_tokens_label, Some(snapshot)).spans
                == seq![
                context_window_view(percent, used_tokens_label, None).spans[0],
                separator(),
                q,
            ],
            None => context_window_view(percent, used_tokens_label, Some(snapshot))
                == context_window_view(percent, used_tokens_label, None),
        },
{
}

/// Distinct reasoning efforts carry distinct labels, and so do distinct
/// sandboxes and distinct modes: the label names the setting.
pub proof fn lemma_labels_distinguish(
    e1: ReasoningEffort,
    e2: ReasoningEffort,
    p1: SandboxPolicy,
    p2: SandboxPolicy,
    m1: Mode,
    m2: Mode,
)
    ensures
        effort_label(e1) == effort_label(e2) ==> e1 == e2,
        sandbox_label(p1) == sandbox_label(p2) ==> p1 == p2,
        mode_label_view(m1).text == mode_label_view(m2).text ==> m1 == m2,
{
    reveal_strlit("none");
    reveal_strlit("minimal");
    reveal_strlit("low");
    reveal_strlit("medium");
    reveal_strlit("high");
    reveal_strlit("x-high");
    reveal_strlit("read-only");
    reveal_strlit("project");
    reveal_strlit("full-access");
    reveal_strlit("external");
    reveal_strlit("Plan");
    reveal_strlit("Default");
    reveal_strlit("Accept edits");
    if effort_label(e1) == effort_label(e2) && e1 != e2 {
        let a = effort_label(e1);
        let b = effort_label(e2);
        assert(a.len() == b.len());
        assert(a[0] == b[0]);
    }
    if sandbox_label(p1) == sandbox_label(p2) && p1 != p2 {
        let a = sandbox_label(p1);
        let b = sandbox_label(p2);
        assert(a.len() == b.len());
    }
    if mode_label_view(m1).text == mode_label_view(m2).text && m1 != m2 {
        let a = mode_label_view(m1).text;
        let b = mode_label_view(m2).text;
        assert(a.len() == b.len());
    }
}

/// The reasoning effort, when known, stands after the model name and a
/// separator, dim; without one the sandbox (or the closing separator) comes
/// right after the model.
pub proof fn lemma_effort_position(
    m: Mode,
    model: Seq<char>,
    e: Option<ReasoningEffort>,
    p: Option<SandboxPolicy>,
)
    ensures
        mode_label_spans(m, model, e, p)[2] == span_view(model, fg_style(Color::Cyan)),
        e is Some ==> mode_label_spans(m, model, e, p)[3] == separator()
            && mode_label_spans(m, model, e, p)[4] == span_view(effort_label(e.unwrap()), dim_style()),
        mode_label_spans(m, model, e, p).len() == 4 + (if e is Some { 2int } else { 0int }) + (
        if p is Some {
            2int
        } else {
            0int
        }),
{
}

/// The number of lines the footer takes.
pub fn footer_height(props: &FooterProps, is_wsl: bool) -> (h: u16)
    ensures
        h == footer_view(*props, is_wsl).len(),
{
    let lines = footer_lines(props, is_wsl);
    proof {
        lemma_footer_line_count(*props, is_wsl);
        assert(lines@.len() == line_views(lines@).len());
    }
    lines.len() as u16
}

} // verus!
