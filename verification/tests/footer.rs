use tui_footer::footer::{
    context_window_line, ctrl_c_reminder_line, esc_hint_line, footer_height, footer_lines,
    format_rate_limit_quota, prepend_mode_label, CtrlCReminderState, FooterProps, Mode,
    RateLimitSnapshotDisplay, RateLimitWindowDisplay, ReasoningEffort, SandboxPolicy,
    TranscriptCopyFeedback,
};
use tui_footer::keys::{ctrl, ctrl_alt, ctrl_shift, plain, shift, KeyCode};
use tui_footer::mode::FooterMode::{
    ContextOnly, CtrlCReminder, EscHint, ShortcutOverlay, ShortcutSummary,
};
use tui_footer::mode::{esc_hint_mode, reset_mode_after_activity, toggle_shortcut_mode, FooterMode};
use tui_footer::shortcuts::{
    build_columns, shortcut_overlay_lines, shortcuts, DisplayCondition, ShortcutBinding,
    ShortcutId, ShortcutsState,
};
use tui_footer::text::{decimal_string, spaces, Color, FooterLine, FooterSpan, SpanStyle};

fn line_text(line: &FooterLine) -> String {
    line.spans.iter().map(|s| s.content.as_str()).collect()
}

fn window(used_percent: f64, resets_at: Option<&str>) -> RateLimitWindowDisplay {
    RateLimitWindowDisplay {
        remaining_percent: (100.0_f64 - used_percent).round() as i64,
        resets_at: resets_at.map(|s| s.to_string()),
    }
}

fn props(mode: FooterMode) -> FooterProps {
    FooterProps {
        mode,
        esc_backtrack_hint: false,
        use_shift_enter_hint: false,
        is_task_running: false,
        operation_mode: Mode::Default,
        model_name: "gpt-4.1".to_string(),
        reasoning_effort: None,
        sandbox_policy: None,
        context_window_percent: None,
        context_window_used_tokens_label: None,
        rate_limit_snapshot: None,
        transcript_scrolled: false,
        transcript_selection_active: false,
        transcript_scroll_position: None,
        transcript_copy_selection_key: ctrl_shift(KeyCode::Char('c')),
        transcript_copy_feedback: None,
    }
}

fn texts(p: &FooterProps) -> Vec<String> {
    footer_lines(p, false).iter().map(line_text).collect()
}

#[test]
fn footer_snapshots() {
    let p = props(FooterMode::ShortcutSummary);
    assert_eq!(footer_height(&p, false), 1);
    assert_eq!(
        texts(&p),
        vec!["Default · gpt-4.1 · 100% context left · ? for shortcuts".to_string()]
    );

    let mut p = props(FooterMode::ShortcutSummary);
    p.transcript_scrolled = true;
    p.transcript_selection_active = true;
    p.transcript_scroll_position = Some((3, 42));
    assert_eq!(
        texts(&p),
        vec![
            "Default · gpt-4.1 · 100% context left · ? for shortcuts · pgup/pgdn scroll · home/end jump · 3/42 · ctrl + shift + c copy selection"
                .to_string()
        ]
    );

    let mut p = props(FooterMode::ShortcutOverlay);
    p.esc_backtrack_hint = true;
    p.use_shift_enter_hint = true;
    assert_eq!(footer_height(&p, false), 5);
    let pad = |n: usize| " ".repeat(n);
    assert_eq!(
        texts(&p),
        vec![
            format!("/ for commands{}shift + enter for newline", pad(21)),
            format!("@ for file paths{}ctrl + v to paste images", pad(19)),
            format!("back tab to cycle modes{}esc again to edit previous message", pad(12)),
            format!("ctrl + c to exit{}", pad(19)),
            format!("ctrl + t to view transcript{}", pad(8)),
        ]
    );

    let p = props(FooterMode::CtrlCReminder);
    assert_eq!(texts(&p), vec!["ctrl + c again to quit".to_string()]);
    let mut p = props(FooterMode::CtrlCReminder);
    p.is_task_running = true;
    assert_eq!(texts(&p), vec!["ctrl + c again to interrupt".to_string()]);

    let p = props(FooterMode::EscHint);
    assert_eq!(texts(&p), vec!["esc esc to edit previous message".to_string()]);
    let mut p = props(FooterMode::EscHint);
    p.esc_backtrack_hint = true;
    assert_eq!(texts(&p), vec!["esc again to edit previous message".to_string()]);

    let mut p = props(FooterMode::ShortcutSummary);
    p.is_task_running = true;
    p.context_window_percent = Some(72);
    assert_eq!(
        texts(&p),
        vec!["Default · gpt-4.1 · 72% context left · ? for shortcuts".to_string()]
    );

    let mut p = props(FooterMode::ShortcutSummary);
    p.context_window_used_tokens_label = Some("123K".to_string());
    assert_eq!(texts(&p), vec!["Default · gpt-4.1 · 123K used · ? for shortcuts".to_string()]);

    let mut p = props(FooterMode::ShortcutSummary);
    p.transcript_copy_feedback = Some(TranscriptCopyFeedback::Copied);
    let lines = footer_lines(&p, false);
    assert_eq!(
        line_text(&lines[0]),
        "Default · gpt-4.1 · 100% context left · ? for shortcuts · Copied"
    );
    let last = lines[0].spans.last().unwrap();
    assert_eq!(last.style, SpanStyle { fg: Some(Color::Green), bold: true, dim: false });

    let cases = [
        (30.0, "14:30", "14:30 · 70%", SpanStyle { fg: None, bold: false, dim: true }),
        (80.0, "15:00", "15:00 · 20%", SpanStyle { fg: Some(Color::Yellow), bold: false, dim: false }),
        (95.0, "15:30", "15:30 · 5%", SpanStyle { fg: Some(Color::Red), bold: false, dim: false }),
    ];
    for (used, reset, text, style) in cases {
        let mut p = props(FooterMode::ShortcutSummary);
        p.context_window_percent = Some(50);
        p.rate_limit_snapshot = Some(RateLimitSnapshotDisplay {
            primary: Some(window(used, Some(reset))),
            secondary: None,
        });
        let lines = footer_lines(&p, false);
        assert_eq!(
            line_text(&lines[0]),
            format!("Default · gpt-4.1 · 50% context left · {text} · ? for shortcuts")
        );
        assert_eq!(lines[0].spans[6].style, style);
    }

    let mut p = props(FooterMode::ShortcutSummary);
    p.context_window_percent = Some(50);
    p.rate_limit_snapshot = Some(RateLimitSnapshotDisplay {
        primary: None,
        secondary: Some(window(40.0, Some("12:00 on 5 Jan"))),
    });
    assert_eq!(
        texts(&p),
        vec!["Default · gpt-4.1 · 50% context left · 12:00 on 5 Jan · 60% · ? for shortcuts".to_string()]
    );
}

#[test]
fn format_rate_limit_quota_tests() {
    // With reset time shows "time · percentage"
    let snapshot = RateLimitSnapshotDisplay { primary: Some(window(30.0, Some("14:30"))), secondary: None };
    let result = format_rate_limit_quota(&snapshot);
    assert!(result.is_some());
    assert_eq!(result.unwrap().content, "14:30 · 70%");

    // Without reset time shows just percentage
    let snapshot = RateLimitSnapshotDisplay { primary: Some(window(30.0, None)), secondary: None };
    let result = format_rate_limit_quota(&snapshot);
    assert_eq!(result.unwrap().content, "70%");

    // 90% used = 10% remaining (red boundary)
    let snapshot = RateLimitSnapshotDisplay { primary: Some(window(90.0, Some("15:00"))), secondary: None };
    let result = format_rate_limit_quota(&snapshot);
    assert_eq!(result.unwrap().content, "15:00 · 10%");

    // No primary, use secondary
    let snapshot = RateLimitSnapshotDisplay {
        primary: None,
        secondary: Some(window(50.0, Some("12:00 on 5 Jan"))),
    };
    let result = format_rate_limit_quota(&snapshot);
    assert_eq!(result.unwrap().content, "12:00 on 5 Jan · 50%");

    // No windows at all returns None
    let snapshot = RateLimitSnapshotDisplay { primary: None, secondary: None };
    assert!(format_rate_limit_quota(&snapshot).is_none());

    // 100% used = 0% remaining (clamped)
    let snapshot = RateLimitSnapshotDisplay { primary: Some(window(100.0, Some("16:00"))), secondary: None };
    assert_eq!(format_rate_limit_quota(&snapshot).unwrap().content, "16:00 · 0%");

    // 0% used = 100% remaining
    let snapshot = RateLimitSnapshotDisplay { primary: Some(window(0.0, Some("17:00"))), secondary: None };
    assert_eq!(format_rate_limit_quota(&snapshot).unwrap().content, "17:00 · 100%");
}

#[test]
fn quota_colors_follow_thresholds() {
    let style_for = |remaining: i64| {
        let snapshot = RateLimitSnapshotDisplay {
            primary: Some(RateLimitWindowDisplay { remaining_percent: remaining, resets_at: None }),
            secondary: None,
        };
        format_rate_limit_quota(&snapshot).unwrap().style
    };
    assert_eq!(style_for(10).fg, Some(Color::Red));
    assert_eq!(style_for(-5).fg, Some(Color::Red));
    assert_eq!(style_for(11).fg, Some(Color::Yellow));
    assert_eq!(style_for(25).fg, Some(Color::Yellow));
    assert_eq!(style_for(26), SpanStyle { fg: None, bold: false, dim: true });
    let clamped = RateLimitSnapshotDisplay {
        primary: Some(RateLimitWindowDisplay { remaining_percent: 250, resets_at: None }),
        secondary: Some(RateLimitWindowDisplay { remaining_percent: 1, resets_at: None }),
    };
    assert_eq!(format_rate_limit_quota(&clamped).unwrap().content, "100%");
}

#[test]
fn mode_transitions() {
    for hint in [false, true] {
        assert_eq!(toggle_shortcut_mode(toggle_shortcut_mode(ShortcutSummary, hint), hint), ShortcutSummary);
        assert_eq!(toggle_shortcut_mode(ShortcutOverlay, hint), ShortcutSummary);
        assert_eq!(toggle_shortcut_mode(EscHint, hint), ShortcutOverlay);
        assert_eq!(toggle_shortcut_mode(ContextOnly, hint), ShortcutOverlay);
    }
    assert_eq!(toggle_shortcut_mode(CtrlCReminder, true), CtrlCReminder);
    assert_eq!(toggle_shortcut_mode(CtrlCReminder, false), ShortcutSummary);
    for m in [CtrlCReminder, ShortcutSummary, ShortcutOverlay, EscHint, ContextOnly] {
        assert_eq!(reset_mode_after_activity(m), ShortcutSummary);
        assert_eq!(esc_hint_mode(m, true), m);
        assert_eq!(esc_hint_mode(m, false), EscHint);
    }
}

#[test]
fn key_hints_name_keys() {
    let text = |b: tui_footer::keys::KeyBinding| b.hint_span().content;
    assert_eq!(text(ctrl(KeyCode::Char('c'))), "ctrl + c");
    assert_eq!(text(shift(KeyCode::Enter)), "shift + enter");
    assert_eq!(text(ctrl_alt(KeyCode::Char('v'))), "ctrl + alt + v");
    assert_eq!(text(ctrl_shift(KeyCode::Char('c'))), "ctrl + shift + c");
    assert_eq!(text(plain(KeyCode::Esc)), "esc");
    assert_eq!(text(plain(KeyCode::BackTab)), "back tab");
    assert_eq!(text(plain(KeyCode::Home)), "home");
    assert_eq!(text(plain(KeyCode::End)), "end");
    assert_eq!(text(plain(KeyCode::PageUp)), "pgup");
    assert_eq!(text(plain(KeyCode::PageDown)), "pgdn");
    assert_eq!(text(plain(KeyCode::Char(' '))), "space");
    assert_eq!(text(plain(KeyCode::Char('Q'))), "q");
    assert!(plain(KeyCode::Esc).hint_span().style.dim);
}

#[test]
fn shortcut_bindings_follow_state() {
    let state = |shift_enter: bool, wsl: bool| ShortcutsState {
        use_shift_enter_hint: shift_enter,
        esc_backtrack_hint: false,
        is_wsl: wsl,
    };
    let table = shortcuts();
    assert_eq!(table.len(), 8);
    let newline = &table[1];
    assert_eq!(newline.id, ShortcutId::InsertNewline);
    assert_eq!(newline.binding_for(state(true, false)).unwrap().key, shift(KeyCode::Enter));
    assert_eq!(newline.binding_for(state(false, false)).unwrap().key, ctrl(KeyCode::Char('j')));
    let paste = &table[3];
    assert_eq!(paste.binding_for(state(false, true)).unwrap().key, ctrl_alt(KeyCode::Char('v')));
    assert_eq!(paste.binding_for(state(false, false)).unwrap().key, ctrl(KeyCode::Char('v')));
    for s in [state(false, false), state(true, true)] {
        for d in &table {
            assert!(d.overlay_entry(s).is_some());
        }
    }
    let b = ShortcutBinding { key: plain(KeyCode::Esc), condition: DisplayCondition::WhenUnderWSL };
    assert!(b.matches(state(false, true)));
    assert!(!b.matches(state(false, false)));
    assert!(DisplayCondition::WhenNotShiftEnterHint.matches(state(false, false)));
    assert!(!DisplayCondition::WhenShiftEnterHint.matches(state(false, false)));
    assert!(DisplayCondition::Always.matches(state(true, true)));
    assert_eq!(shortcut_overlay_lines(state(false, true)).len(), 5);
    assert_eq!(
        line_text(&shortcut_overlay_lines(state(false, false))[0]),
        format!("/ for commands{}ctrl + j for newline", " ".repeat(21))
    );
}

#[test]
fn columns_line_up() {
    let line = |t: &str| {
        let mut l = FooterLine::empty();
        l.push_span(FooterSpan::raw(t));
        l
    };
    let rows = build_columns(vec![line("a"), line("bb"), line("cccccc"), line("d"), line("ee")]);
    assert_eq!(rows.len(), 3);
    let texts: Vec<String> = rows.iter().map(line_text).collect();
    // the first column is 6 + 4 wide; the gap adds 4 more
    assert_eq!(texts[0], format!("a{}bb", " ".repeat(13)));
    assert_eq!(texts[1], format!("cccccc{}d", " ".repeat(8)));
    assert_eq!(texts[2], format!("ee{}", " ".repeat(12)));
    assert!(rows.iter().all(|r| r.style.dim));
    assert!(build_columns(Vec::new()).is_empty());
    // wide characters count two columns each
    let rows = build_columns(vec![line("界界"), line("x"), line("a"), line("y")]);
    assert_eq!(line_text(&rows[0]), format!("界界{}x", " ".repeat(8)));
    assert_eq!(line_text(&rows[1]), format!("a{}y", " ".repeat(11)));
    assert_eq!(rows[0].width(), 13);
}

#[test]
fn context_line_variants() {
    let l = context_window_line(Some(150), None, None);
    assert_eq!(line_text(&l), "100% context left");
    let l = context_window_line(Some(-3), Some("5K"), None);
    assert_eq!(line_text(&l), "0% context left");
    let l = context_window_line(None, Some("1.2M"), None);
    assert_eq!(line_text(&l), "1.2M used");
    let snapshot = RateLimitSnapshotDisplay {
        primary: Some(RateLimitWindowDisplay { remaining_percent: 42, resets_at: None }),
        secondary: None,
    };
    let l = context_window_line(None, None, Some(&snapshot));
    assert_eq!(line_text(&l), "100% context left · 42%");
    assert!(l.spans.iter().all(|s| s.style.dim));
}

#[test]
fn mode_label_lists_model_effort_and_sandbox() {
    let mut line = FooterLine::empty();
    line.push_span(FooterSpan::dim("rest"));
    let mut line = line.dim();
    prepend_mode_label(
        &mut line,
        Mode::Plan,
        "o3",
        Some(ReasoningEffort::XHigh),
        Some(SandboxPolicy::WorkspaceWrite),
    );
    assert_eq!(line_text(&line), "Plan · o3 · x-high · project · rest");
    assert_eq!(line.spans[0].style, SpanStyle { fg: Some(Color::Yellow), bold: true, dim: false });
    assert_eq!(line.spans[2].style, SpanStyle { fg: Some(Color::Cyan), bold: false, dim: false });
    assert!(!line.style.dim);
    let mut line = FooterLine::empty();
    prepend_mode_label(&mut line, Mode::AcceptEdits, "m", Some(ReasoningEffort::Off), Some(SandboxPolicy::DangerFullAccess));
    assert_eq!(line_text(&line), "Accept edits · m · none · full-access · ");
    let mut line = FooterLine::empty();
    prepend_mode_label(&mut line, Mode::Default, "m", None, Some(SandboxPolicy::ExternalSandbox));
    assert_eq!(line_text(&line), "Default · m · external · ");
    let mut line = FooterLine::empty();
    prepend_mode_label(&mut line, Mode::Default, "m", Some(ReasoningEffort::Minimal), Some(SandboxPolicy::ReadOnly));
    assert_eq!(line_text(&line), "Default · m · minimal · read-only · ");
}

#[test]
fn reminder_lines() {
    assert_eq!(line_text(&ctrl_c_reminder_line(CtrlCReminderState { is_task_running: false })), "ctrl + c again to quit");
    assert!(ctrl_c_reminder_line(CtrlCReminderState { is_task_running: true }).style.dim);
    assert_eq!(line_text(&esc_hint_line(false)), "esc esc to edit previous message");
    assert_eq!(line_text(&esc_hint_line(true)), "esc again to edit previous message");
}

#[test]
fn copy_feedback_only_on_first_line() {
    let mut p = props(FooterMode::ShortcutOverlay);
    p.transcript_copy_feedback = Some(TranscriptCopyFeedback::Failed);
    let lines = footer_lines(&p, false);
    assert_eq!(lines.len(), 5);
    assert!(line_text(&lines[0]).ends_with(" · Copy failed"));
    assert!(!line_text(&lines[1]).contains("Copy failed"));
    let mut p = props(FooterMode::ContextOnly);
    p.transcript_copy_feedback = Some(TranscriptCopyFeedback::Copied);
    p.reasoning_effort = Some(ReasoningEffort::High);
    assert_eq!(texts(&p), vec!["Default · gpt-4.1 · high · 100% context left · Copied".to_string()]);
}

#[test]
fn number_and_space_text() {
    assert_eq!(decimal_string(0), "0");
    assert_eq!(decimal_string(7), "7");
    assert_eq!(decimal_string(1234567890), "1234567890");
    assert_eq!(decimal_string(u64::MAX), u64::MAX.to_string());
    assert_eq!(spaces(0), "");
    assert_eq!(spaces(3), "   ");
}
