use cq::app::{exit_message, Action, App, CommitOpts, HookStatus, InputMode, LoopStep};
use cq::hook::HookEvent;
use cq::key::{KeyCode, KeyEvent, MOD_ALT, MOD_CONTROL, MOD_NONE, MOD_SHIFT};

fn opts(conventional: bool) -> CommitOpts {
    CommitOpts { conventional, extra_args: vec![] }
}

fn key(code: KeyCode) -> KeyEvent {
    KeyEvent::new(code, MOD_NONE)
}

fn type_text(app: &mut App, s: &str) {
    for c in s.chars() {
        assert_eq!(app.handle_key(key(KeyCode::Char(c))), Action::Continue);
    }
}

fn finished(success: bool) -> HookEvent {
    HookEvent::Finished { success, elapsed_nanos: 1_300_000_000 }
}

#[test]
fn new_without_template_starts_empty() {
    let app = App::new(opts(false), None, vec!["M\tsrc/main.rs".to_string()]);
    assert_eq!(app.input_mode, InputMode::EditMessage);
    assert_eq!(app.hook_status, HookStatus::Running);
    assert_eq!(app.message(), "");
    assert_eq!(app.do_commit(), None);
    assert!(app.hook_auto_scroll);
    assert_eq!(app.staged_files.len(), 1);
}

#[test]
fn new_with_template_loads_its_lines() {
    let app = App::new(opts(false), Some("feat: x\n\nbody".to_string()), vec![]);
    assert_eq!(app.message(), "feat: x\n\nbody");
    assert_eq!(app.do_commit(), Some("feat: x\n\nbody".to_string()));
}

#[test]
fn conventional_mode_starts_with_type_selection() {
    let app = App::new(opts(true), None, vec![]);
    assert_eq!(app.input_mode, InputMode::SelectType);
    assert_eq!(app.type_selection, 0);
}

#[test]
fn conventional_flow_inserts_prefix_with_scope() {
    let mut app = App::new(opts(true), None, vec![]);
    app.handle_key(key(KeyCode::Down));
    app.handle_key(key(KeyCode::Down));
    assert_eq!(app.type_selection, 2);
    assert_eq!(app.handle_key(key(KeyCode::Enter)), Action::Continue);
    assert_eq!(app.input_mode, InputMode::EnterScope);
    type_text(&mut app, "uix");
    app.handle_key(key(KeyCode::Backspace));
    assert_eq!(app.scope_input, "ui");
    app.handle_key(key(KeyCode::Enter));
    assert_eq!(app.input_mode, InputMode::EditMessage);
    assert_eq!(app.message(), "chore(ui):");
    type_text(&mut app, "tidy");
    assert_eq!(app.message(), "chore(ui): tidy");
}

#[test]
fn conventional_prefix_without_scope_goes_before_template() {
    let mut app = App::new(opts(true), Some("body line".to_string()), vec![]);
    app.handle_key(key(KeyCode::Enter));
    app.handle_key(key(KeyCode::Backspace));
    assert_eq!(app.scope_input, "");
    app.handle_key(key(KeyCode::Enter));
    assert_eq!(app.message(), "feat: body line");
}

#[test]
fn type_selection_stays_in_range() {
    let mut app = App::new(opts(true), None, vec![]);
    app.handle_key(key(KeyCode::Up));
    assert_eq!(app.type_selection, 0);
    for _ in 0..20 {
        app.handle_key(key(KeyCode::Down));
    }
    assert_eq!(app.type_selection, 9);
    app.handle_key(key(KeyCode::Char('x')));
    assert_eq!(app.type_selection, 9);
    assert_eq!(app.input_mode, InputMode::SelectType);
}

#[test]
fn abort_keys_in_every_mode() {
    for conventional in [true, false] {
        let mut app = App::new(opts(conventional), None, vec![]);
        assert_eq!(app.handle_key(KeyEvent::new(KeyCode::Esc, MOD_NONE)), Action::Abort);
        assert_eq!(app.handle_key(KeyEvent::new(KeyCode::Char('c'), MOD_CONTROL)), Action::Abort);
    }
    let mut app = App::new(opts(false), None, vec![]);
    assert_eq!(app.on_action(Action::Abort, true), LoopStep::Abort);
    assert_ne!(app.handle_key(KeyEvent::new(KeyCode::Esc, MOD_SHIFT)), Action::Abort);
}

#[test]
fn submit_keys() {
    let mut app = App::new(opts(false), None, vec![]);
    assert_eq!(app.handle_key(KeyEvent::new(KeyCode::Char('s'), MOD_CONTROL)), Action::Submit);
    assert_eq!(app.handle_key(KeyEvent::new(KeyCode::Enter, MOD_CONTROL)), Action::Submit);
    assert_eq!(app.handle_key(KeyEvent::new(KeyCode::Char('s'), MOD_CONTROL | MOD_SHIFT)), Action::Continue);
}

#[test]
fn typing_goes_to_editor_and_release_is_ignored() {
    let mut app = App::new(opts(false), None, vec![]);
    type_text(&mut app, "hi");
    let release = KeyEvent { code: KeyCode::Char('x'), modifiers: MOD_NONE, release: true };
    app.handle_key(release);
    app.handle_key(key(KeyCode::Enter));
    type_text(&mut app, "there");
    assert_eq!(app.message(), "hi\nthere");
}

#[test]
fn submit_while_running_waits_then_commits() {
    let mut app = App::new(opts(false), Some("fix: bug".to_string()), vec![]);
    let action = app.handle_key(KeyEvent::new(KeyCode::Char('s'), MOD_CONTROL));
    assert_eq!(app.on_action(action, true), LoopStep::Tick);
    assert_eq!(app.hook_status, HookStatus::Waiting);
    assert!(app.pending_submit);
    assert!(!app.on_hook_event(HookEvent::Output("lint ok".to_string())));
    assert!(app.pending_submit);
    assert!(app.on_hook_event(finished(true)));
    assert_eq!(app.hook_status, HookStatus::Passed(1_300_000_000));
    assert_eq!(app.do_commit(), Some("fix: bug".to_string()));
}

#[test]
fn failed_hook_blocks_commit_and_can_be_retried() {
    let mut app = App::new(opts(false), Some("fix: bug".to_string()), vec![]);
    app.on_hook_event(HookEvent::Output("error: x".to_string()));
    assert!(!app.on_hook_event(finished(false)));
    assert_eq!(app.hook_status, HookStatus::Failed(1_300_000_000));
    assert_eq!(app.on_action(Action::Submit, true), LoopStep::SkipTick);
    assert_eq!(app.hook_status, HookStatus::Failed(1_300_000_000));
    let retry = app.handle_key(KeyEvent::new(KeyCode::Char('r'), MOD_CONTROL));
    assert_eq!(retry, Action::Retry);
    assert_eq!(app.on_action(retry, true), LoopStep::RestartHook);
    assert_eq!(app.hook_status, HookStatus::Running);
    assert!(app.hook_output.is_empty());
    assert_eq!(app.hook_scroll, 0);
    assert!(app.hook_auto_scroll);
}

#[test]
fn retry_only_after_failure_and_with_a_hook() {
    let mut app = App::new(opts(false), None, vec![]);
    assert_eq!(app.handle_key(KeyEvent::new(KeyCode::Char('r'), MOD_CONTROL)), Action::Continue);
    app.hook_status = HookStatus::Failed(5);
    assert_eq!(app.on_action(Action::Retry, false), LoopStep::Tick);
    assert_eq!(app.hook_status, HookStatus::Failed(5));
}

#[test]
fn failure_cancels_pending_commit() {
    let mut app = App::new(opts(false), Some("x".to_string()), vec![]);
    app.on_action(Action::Submit, true);
    assert!(app.pending_submit);
    assert!(!app.on_hook_event(finished(false)));
    assert!(!app.pending_submit);
}

#[test]
fn without_hook_commit_is_immediate() {
    let mut app = App::new(opts(false), Some("docs: readme".to_string()), vec![]);
    app.mark_no_hook();
    assert_eq!(app.hook_status, HookStatus::NoHook);
    assert_eq!(app.on_action(Action::Submit, false), LoopStep::Commit);
}

#[test]
fn passed_hook_commit_is_immediate() {
    let mut app = App::new(opts(false), Some("docs: readme".to_string()), vec![]);
    assert!(!app.on_hook_event(finished(true)));
    assert_eq!(app.on_action(Action::Submit, true), LoopStep::Commit);
}

#[test]
fn empty_message_is_not_submitted() {
    let mut app = App::new(opts(false), Some("   \n  ".to_string()), vec![]);
    app.mark_no_hook();
    assert_eq!(app.on_action(Action::Submit, false), LoopStep::SkipTick);
    assert_eq!(app.do_commit(), None);
}

#[test]
fn output_follows_and_scrolling() {
    let mut app = App::new(opts(false), None, vec![]);
    for i in 0..5 {
        app.on_hook_event(HookEvent::Output(format!("line {i}")));
    }
    assert_eq!(app.hook_output.len(), 5);
    assert_eq!(app.hook_scroll, 4);
    app.handle_key(KeyEvent::new(KeyCode::Up, MOD_ALT));
    app.handle_key(KeyEvent::new(KeyCode::Up, MOD_ALT));
    assert_eq!(app.hook_scroll, 2);
    assert!(!app.hook_auto_scroll);
    app.on_hook_event(HookEvent::Output("line 5".to_string()));
    assert_eq!(app.hook_scroll, 2);
    app.handle_key(KeyEvent::new(KeyCode::Down, MOD_ALT));
    assert_eq!(app.hook_scroll, 3);
    assert!(!app.hook_auto_scroll);
    app.handle_key(KeyEvent::new(KeyCode::Down, MOD_ALT));
    app.handle_key(KeyEvent::new(KeyCode::Down, MOD_ALT));
    assert_eq!(app.hook_scroll, 5);
    assert!(app.hook_auto_scroll);
    app.handle_key(KeyEvent::new(KeyCode::Down, MOD_ALT));
    assert_eq!(app.hook_scroll, 5);
    let mut empty = App::new(opts(false), None, vec![]);
    empty.handle_key(KeyEvent::new(KeyCode::Up, MOD_ALT));
    assert_eq!(empty.hook_scroll, 0);
}

#[test]
fn tick_counts_frames() {
    let mut app = App::new(opts(false), None, vec![]);
    app.tick();
    app.tick();
    assert_eq!(app.tick_count, 2);
    assert_eq!(app.on_action(Action::Continue, true), LoopStep::Tick);
}

#[test]
fn staged_check_skipped_for_amend_or_empty() {
    let mut o = opts(false);
    assert!(!o.skip_staged_check());
    o.extra_args = vec!["--signoff".to_string(), "--amend".to_string()];
    assert!(o.skip_staged_check());
    o.extra_args = vec!["--allow-empty".to_string()];
    assert!(o.skip_staged_check());
    o.extra_args = vec!["--amend=x".to_string()];
    assert!(!o.skip_staged_check());
}

#[test]
fn exit_messages() {
    assert_eq!(exit_message(&Some("[main abc] x\n".to_string())), "[main abc] x\n");
    assert_eq!(exit_message(&None), "Commit aborted.");
}

#[test]
fn commit_types_table() {
    assert_eq!(cq::app::commit_type(0), ("feat", "A new feature"));
    assert_eq!(cq::app::commit_type(9), ("build", "Build system changes"));
    assert_eq!(cq::app::COMMIT_TYPE_COUNT, 10);
}

#[test]
fn typed_message_waits_for_hook_then_commits() {
    let mut app = App::new(opts(false), None, vec![]);
    type_text(&mut app, "hi");
    assert_eq!(app.message(), "hi");
    let submit = app.handle_key(KeyEvent::new(KeyCode::Char('s'), MOD_CONTROL));
    assert_eq!(submit, Action::Submit);
    assert_eq!(app.on_action(submit, true), LoopStep::Tick);
    assert_eq!(app.hook_status, HookStatus::Waiting);
    assert!(app.pending_submit);
    assert!(app.on_hook_event(finished(true)));
    assert_eq!(app.do_commit(), Some("hi".to_string()));
}

#[test]
fn typed_message_waits_then_hook_fails_then_abort() {
    let mut app = App::new(opts(false), None, vec![]);
    type_text(&mut app, "hi");
    let submit = app.handle_key(KeyEvent::new(KeyCode::Char('s'), MOD_CONTROL));
    assert_eq!(app.on_action(submit, true), LoopStep::Tick);
    assert!(!app.on_hook_event(HookEvent::Finished { success: false, elapsed_nanos: 500_000_000 }));
    assert_eq!(app.hook_status, HookStatus::Failed(500_000_000));
    assert!(!app.pending_submit);
    let abort = app.handle_key(KeyEvent::new(KeyCode::Char('c'), MOD_CONTROL));
    assert_eq!(app.on_action(abort, true), LoopStep::Abort);
}

#[test]
fn editor_keys_newline_and_backspace() {
    let mut app = App::new(opts(false), None, vec![]);
    type_text(&mut app, "ab");
    app.handle_key(key(KeyCode::Backspace));
    assert_eq!(app.message(), "a");
    app.handle_key(key(KeyCode::Enter));
    type_text(&mut app, "c");
    assert_eq!(app.message(), "a\nc");
    app.handle_key(key(KeyCode::Backspace));
    app.handle_key(key(KeyCode::Backspace));
    assert_eq!(app.message(), "a");
    app.handle_key(KeyEvent::new(KeyCode::Char('B'), MOD_SHIFT));
    assert_eq!(app.message(), "aB");
}

#[test]
fn scope_with_newline_splits_prefix_into_lines() {
    let mut app = App::new(opts(true), None, vec![]);
    app.handle_key(key(KeyCode::Enter));
    type_text(&mut app, "a\nb");
    app.handle_key(key(KeyCode::Enter));
    assert_eq!(app.input_mode, InputMode::EditMessage);
    type_text(&mut app, "x");
    assert_eq!(app.message(), "feat(a\nb): x");
}

#[test]
fn placeholder_only_without_template() {
    let app = App::new(opts(false), None, vec![]);
    assert_eq!(app.textarea.widget.placeholder_text(), "Enter commit message...");
    let app = App::new(opts(false), Some("t".to_string()), vec![]);
    assert_eq!(app.textarea.widget.placeholder_text(), "");
}

#[test]
fn editor_cursor_keys_move_without_editing() {
    let mut app = App::new(opts(false), Some("abc\nde".to_string()), vec![]);
    assert_eq!(app.textarea.widget.cursor(), (0, 0));
    assert_eq!(app.handle_key(key(KeyCode::Right)), Action::Continue);
    assert_eq!(app.textarea.widget.cursor(), (0, 1));
    app.handle_key(key(KeyCode::End));
    assert_eq!(app.textarea.widget.cursor(), (0, 3));
    // Forward at the end of a line goes to the start of the next one.
    app.handle_key(key(KeyCode::Right));
    assert_eq!(app.textarea.widget.cursor(), (1, 0));
    // Back at the start of a line goes to the end of the one before.
    app.handle_key(key(KeyCode::Left));
    assert_eq!(app.textarea.widget.cursor(), (0, 3));
    // Down keeps the column where the line below is long enough, else its end.
    app.handle_key(key(KeyCode::Down));
    assert_eq!(app.textarea.widget.cursor(), (1, 2));
    app.handle_key(key(KeyCode::Home));
    assert_eq!(app.textarea.widget.cursor(), (1, 0));
    app.handle_key(key(KeyCode::Up));
    assert_eq!(app.textarea.widget.cursor(), (0, 0));
    // Nowhere to go: nothing moves.
    app.handle_key(key(KeyCode::Up));
    app.handle_key(key(KeyCode::Left));
    assert_eq!(app.textarea.widget.cursor(), (0, 0));
    // Emacs keys move too.
    app.handle_key(KeyEvent::new(KeyCode::Char('f'), MOD_CONTROL));
    assert_eq!(app.textarea.widget.cursor(), (0, 1));
    app.handle_key(KeyEvent::new(KeyCode::Char('e'), MOD_CONTROL));
    assert_eq!(app.textarea.widget.cursor(), (0, 3));
    assert_eq!(app.message(), "abc\nde");
}

#[test]
fn editor_shift_movement_selects() {
    let mut app = App::new(opts(false), Some("abc".to_string()), vec![]);
    app.handle_key(KeyEvent::new(KeyCode::Right, MOD_SHIFT));
    assert_eq!(app.textarea.widget.cursor(), (0, 1));
    assert!(app.textarea.widget.selection_range().is_some());
    app.handle_key(key(KeyCode::Right));
    assert!(app.textarea.widget.selection_range().is_none());
    assert_eq!(app.message(), "abc");
}

#[test]
fn editor_delete_removes_next_character_or_joins_lines() {
    let mut app = App::new(opts(false), Some("abc\nde".to_string()), vec![]);
    app.handle_key(key(KeyCode::Delete));
    assert_eq!(app.message(), "bc\nde");
    assert_eq!(app.textarea.widget.cursor(), (0, 0));
    app.handle_key(key(KeyCode::End));
    app.handle_key(KeyEvent::new(KeyCode::Char('d'), MOD_CONTROL));
    assert_eq!(app.message(), "bcde");
    assert_eq!(app.textarea.widget.cursor(), (0, 2));
    app.handle_key(key(KeyCode::End));
    app.handle_key(key(KeyCode::Delete));
    assert_eq!(app.message(), "bcde");
}

#[test]
fn editor_tab_indents_to_next_multiple_of_four() {
    let mut app = App::new(opts(false), None, vec![]);
    type_text(&mut app, "ab");
    app.handle_key(key(KeyCode::Tab));
    type_text(&mut app, "x");
    assert_eq!(app.textarea.widget.lines(), ["ab  x"]);
    app.handle_key(key(KeyCode::Tab));
    assert_eq!(app.textarea.widget.lines(), ["ab  x   "]);
    assert_eq!(app.textarea.widget.cursor(), (0, 8));
}

#[test]
fn editor_unbound_keys_change_nothing() {
    let mut app = App::new(opts(false), Some("abc".to_string()), vec![]);
    app.handle_key(key(KeyCode::Right));
    app.handle_key(key(KeyCode::F(5)));
    app.handle_key(KeyEvent::new(KeyCode::Esc, MOD_SHIFT));
    app.handle_key(KeyEvent::new(KeyCode::Tab, MOD_CONTROL));
    app.handle_key(KeyEvent::new(KeyCode::Backspace, MOD_CONTROL));
    assert_eq!(app.message(), "abc");
    assert_eq!(app.textarea.widget.cursor(), (0, 1));
}
