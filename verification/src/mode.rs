//! Which footer is shown, and how user activity moves between them.
use vstd::prelude::*;

verus! {

/// The kinds of footer the composer can show.
#[derive(Clone, Copy, Debug, PartialEq, Eq)]
pub enum FooterMode {
    /// "ctrl + c again to quit/interrupt".
    CtrlCReminder,
    /// The one-line summary with the context indicator and "? for shortcuts".
    ShortcutSummary,
    /// The multi-line list of shortcuts.
    ShortcutOverlay,
    /// "esc esc to edit previous message".
    EscHint,
    /// Only the context indicator (while typing).
    ContextOnly,
}

/// The footer after the shortcut key ("?") is pressed.
pub open spec fn spec_toggle_shortcut_mode(current: FooterMode, ctrl_c_hint: bool) -> FooterMode {
    if ctrl_c_hint && current == FooterMode::CtrlCReminder {
        current
    } else {
        match current {
            FooterMode::ShortcutOverlay | FooterMode::CtrlCReminder => FooterMode::ShortcutSummary,
            _ => FooterMode::ShortcutOverlay,
        }
    }
}

/// Toggles the shortcut list: from the list or from the Ctrl+C reminder back
/// to the summary, from anything else to the list. While the Ctrl+C hint is
/// active the reminder stays.
pub fn toggle_shortcut_mode(current: FooterMode, ctrl_c_hint: bool) -> (m: FooterMode)
    ensures
        m == spec_toggle_shortcut_mode(current, ctrl_c_hint),
{
    if ctrl_c_hint && matches!(current, FooterMode::CtrlCReminder) {
        return current;
    }
    match current {
        FooterMode::ShortcutOverlay | FooterMode::CtrlCReminder => FooterMode::ShortcutSummary,
        _ => FooterMode::ShortcutOverlay,
    }
}

/// The footer after Esc is pressed.
pub open spec fn spec_esc_hint_mode(current: FooterMode, is_task_running: bool) -> FooterMode {
    if is_task_running {
        current
    } else {
        FooterMode::EscHint
    }
}

/// Shows the Esc hint, unless a task is running (Esc then interrupts it and
/// the footer stays as it was).
pub fn esc_hint_mode(current: FooterMode, is_task_running: bool) -> (m: FooterMode)
    ensures
        m == spec_esc_hint_mode(current, is_task_running),
{
    if is_task_running {
        current
    } else {
        FooterMode::EscHint
    }
}

/// The footer after any other activity.
pub open spec fn spec_reset_mode_after_activity(current: FooterMode) -> FooterMode {
    match current {
        FooterMode::EscHint
        | FooterMode::ShortcutOverlay
        | FooterMode::CtrlCReminder
        | FooterMode::ContextOnly => FooterMode::ShortcutSummary,
        other => other,
    }
}

/// Returns to the summary footer after other activity.
pub fn reset_mode_after_activity(current: FooterMode) -> (m: FooterMode)
    ensures
        m == spec_reset_mode_after_activity(current),
{
    match current {
        FooterMode::EscHint
        | FooterMode::ShortcutOverlay
        | FooterMode::CtrlCReminder
        | FooterMode::ContextOnly => FooterMode::ShortcutSummary,
        other => other,
    }
}

/// Pressing the shortcut key twice from the summary or from the list comes
/// back to where it started.
pub proof fn lemma_toggle_twice(m: FooterMode, ctrl_c_hint: bool)
    requires
        m == FooterMode::ShortcutSummary || m == FooterMode::ShortcutOverlay,
    ensures
        spec_toggle_shortcut_mode(spec_toggle_shortcut_mode(m, ctrl_c_hint), ctrl_c_hint) == m,
{
}

/// The shortcut key only ever shows the summary or the list, except that the
/// Ctrl+C reminder stays while its hint is active.
pub proof fn lemma_toggle_targets(m: FooterMode, ctrl_c_hint: bool)
    ensures
        spec_toggle_shortcut_mode(m, ctrl_c_hint) == FooterMode::ShortcutSummary
            || spec_toggle_shortcut_mode(m, ctrl_c_hint) == FooterMode::ShortcutOverlay
            || (ctrl_c_hint && m == FooterMode::CtrlCReminder
                && spec_toggle_shortcut_mode(m, ctrl_c_hint) == m),
{
}

/// After any activity the footer is the summary, whatever it was before; so
/// resetting twice is the same as resetting once.
pub proof fn lemma_reset_is_summary(m: FooterMode)
    ensures
        spec_reset_mode_after_activity(m) == FooterMode::ShortcutSummary,
        spec_reset_mode_after_activity(spec_reset_mode_after_activity(m))
            == spec_reset_mode_after_activity(m),
{
}

/// Esc leaves the footer unchanged while a task runs, and otherwise shows the
/// Esc hint; a second Esc changes nothing more.
pub proof fn lemma_esc_hint(m: FooterMode, is_task_running: bool)
    ensures
        is_task_running ==> spec_esc_hint_mode(m, is_task_running) == m,
        !is_task_running ==> spec_esc_hint_mode(m, is_task_running) == FooterMode::EscHint,
        spec_esc_hint_mode(spec_esc_hint_mode(m, is_task_running), is_task_running)
            == spec_esc_hint_mode(m, is_task_running),
{
}

} // verus!
