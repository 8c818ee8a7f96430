//! Key bindings and the hint text that names them ("ctrl + c", "esc", ...).
use vstd::prelude::*;
use crossterm::event::KeyCode as TermKey;
use crate::text::{FooterSpan, SpanStyle, SpanView, dim_style, span_view};

verus! {

/// The keys that the footer names.
#[derive(Clone, Copy, Debug, PartialEq, Eq)]
pub enum KeyCode {
    Char(char),
    Enter,
    Esc,
    BackTab,
    Home,
    End,
    PageUp,
    PageDown,
}

/// The modifier keys held with a key.
#[derive(Clone, Copy, Debug, PartialEq, Eq)]
pub struct KeyModifiers {
    pub ctrl: bool,
    pub shift: bool,
    pub alt: bool,
}

/// A key together with its modifiers.
#[derive(Clone, Copy, Debug, PartialEq, Eq)]
pub struct KeyBinding {
    pub key: KeyCode,
    pub modifiers: KeyModifiers,
}

/// `key` with no modifier.
pub open spec fn plain_binding(key: KeyCode) -> KeyBinding {
    KeyBinding { key, modifiers: KeyModifiers { ctrl: false, shift: false, alt: false } }
}

/// The key alone.
pub fn plain(key: KeyCode) -> (b: KeyBinding)
    ensures
        b == plain_binding(key),
{
    KeyBinding { key, modifiers: KeyModifiers { ctrl: false, shift: false, alt: false } }
}

/// `key` with Ctrl.
pub open spec fn ctrl_binding(key: KeyCode) -> KeyBinding {
    KeyBinding { key, modifiers: KeyModifiers { ctrl: true, shift: false, alt: false } }
}

/// The key with Ctrl.
pub fn ctrl(key: KeyCode) -> (b: KeyBinding)
    ensures
        b == ctrl_binding(key),
{
    KeyBinding { key, modifiers: KeyModifiers { ctrl: true, shift: false, alt: false } }
}

/// `key` with Shift.
pub open spec fn shift_binding(key: KeyCode) -> KeyBinding {
    KeyBinding { key, modifiers: KeyModifiers { ctrl: false, shift: true, alt: false } }
}

/// The key with Shift.
pub fn shift(key: KeyCode) -> (b: KeyBinding)
    ensures
        b == shift_binding(key),
{
    KeyBinding { key, modifiers: KeyModifiers { ctrl: false, shift: true, alt: false } }
}

/// `key` with Ctrl and Alt.
pub open spec fn ctrl_alt_binding(key: KeyCode) -> KeyBinding {
    KeyBinding { key, modifiers: KeyModifiers { ctrl: true, shift: false, alt: true } }
}

/// The key with Ctrl and Alt.
pub fn ctrl_alt(key: KeyCode) -> (b: KeyBinding)
    ensures
        b == ctrl_alt_binding(key),
{
    KeyBinding { key, modifiers: KeyModifiers { ctrl: true, shift: false, alt: true } }
}

/// `key` with Ctrl and Shift.
pub open spec fn ctrl_shift_binding(key: KeyCode) -> KeyBinding {
    KeyBinding { key, modifiers: KeyModifiers { ctrl: true, shift: true, alt: false } }
}

/// The key with Ctrl and Shift.
pub fn ctrl_shift(key: KeyCode) -> (b: KeyBinding)
    ensures
        b == ctrl_shift_binding(key),
{
    KeyBinding { key, modifiers: KeyModifiers { ctrl: true, shift: true, alt: false } }
}

/// The name crossterm's `Display` gives a key. Enter is not named here: that
/// name depends on the operating system, and hints name Enter themselves.
pub open spec fn terminal_key_name(k: KeyCode) -> Seq<char> {
    match k {
        KeyCode::Char(c) => if c == ' ' {
            "Space"@
        } else {
            seq![c]
        },
        KeyCode::Enter => Seq::empty(),
        KeyCode::Esc => "Esc"@,
        KeyCode::BackTab => "Back Tab"@,
        KeyCode::Home => "Home"@,
        KeyCode::End => "End"@,
        KeyCode::PageUp => "Page Up"@,
        KeyCode::PageDown => "Page Down"@,
    }
}

/// Formats the key with crossterm's `impl Display for KeyCode`. The contract
/// claims the names that its source writes for these keys; Enter is left out
/// because that source names it "Return" on macOS and "Enter" elsewhere.
#[verifier::external_body]
fn terminal_key_display(k: KeyCode) -> (s: String)
    requires
        k != KeyCode::Enter,
    ensures
        s@ == terminal_key_name(k),
{
    let key = match k {
        KeyCode::Char(c) => TermKey::Char(c),
        KeyCode::Enter => TermKey::Enter,
        KeyCode::Esc => TermKey::Esc,
        KeyCode::BackTab => TermKey::BackTab,
        KeyCode::Home => TermKey::Home,
        KeyCode::End => TermKey::End,
        KeyCode::PageUp => TermKey::PageUp,
        KeyCode::PageDown => TermKey::PageDown,
    };
    format!("{}", key)
}

/// ASCII lower case of one character: `'A'..='Z'` map to `'a'..='z'`, every
/// other character is kept.
pub open spec fn ascii_lower(c: char) -> char {
    if 'A' <= c && c <= 'Z' {
        ((c as u32) + 32) as char
    } else {
        c
    }
}

/// ASCII lower case of a string, character by character.
pub open spec fn ascii_lowercase(s: Seq<char>) -> Seq<char> {
    s.map_values(|c: char| ascii_lower(c))
}

/// Calls std's `str::to_ascii_lowercase`, which its documentation describes
/// as mapping `'A'..='Z'` to `'a'..='z'` and leaving every other character
/// as it is.
#[verifier::external_body]
fn to_ascii_lowercase(s: &str) -> (r: String)
    ensures
        r@ == ascii_lowercase(s@),
{
    s.to_ascii_lowercase()
}

/// The prefix that names the held modifiers, in the order Ctrl, Shift, Alt.
pub open spec fn modifiers_prefix(m: KeyModifiers) -> Seq<char> {
    (if m.ctrl {
        "ctrl + "@
    } else {
        Seq::empty()
    }) + (if m.shift {
        "shift + "@
    } else {
        Seq::empty()
    }) + (if m.alt {
        "alt + "@
    } else {
        Seq::empty()
    })
}

/// The name of a key in a hint: short names for Enter and the page keys,
/// otherwise crossterm's name in lower case.
pub open spec fn key_name(k: KeyCode) -> Seq<char> {
    match k {
        KeyCode::Enter => "enter"@,
        KeyCode::PageUp => "pgup"@,
        KeyCode::PageDown => "pgdn"@,
        _ => ascii_lowercase(terminal_key_name(k)),
    }
}

/// The dim span that names a binding: modifiers prefix, then key name.
pub open spec fn key_hint_view(b: KeyBinding) -> SpanView {
    span_view(modifiers_prefix(b.modifiers) + key_name(b.key), dim_style())
}

impl KeyBinding {
    /// The hint span for this binding, as the footer shows it.
    pub fn hint_span(&self) -> (s: FooterSpan)
        ensures
            s@ == key_hint_view(*self),
    {
        let mut text = String::new();
        if self.modifiers.ctrl {
            text.append("ctrl + ");
        }
        if self.modifiers.shift {
            text.append("shift + ");
        }
        if self.modifiers.alt {
            text.append("alt + ");
        }
        assert(text@ =~= modifiers_prefix(self.modifiers));
        match self.key {
            KeyCode::Enter => text.append("enter"),
            KeyCode::PageUp => text.append("pgup"),
            KeyCode::PageDown => text.append("pgdn"),
            other => {
                let name = terminal_key_display(other);
                let lower = to_ascii_lowercase(name.as_str());
                text.append(lower.as_str());
            },
        }
        FooterSpan { content: text, style: SpanStyle::dimmed() }
    }
}

} // verus!
