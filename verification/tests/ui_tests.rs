use cq::app::{App, CommitOpts, HookStatus, InputMode};
use cq::ui::{self, Color, Line, Piece, Style};

fn new_app() -> App {
    App::new(CommitOpts { conventional: false, extra_args: vec![] }, None, vec![])
}

fn texts(line: &Line) -> Vec<String> {
    line.spans
        .iter()
        .map(|s| match &s.piece {
            Piece::Text(t) => t.clone(),
            Piece::Seconds(n) => format!("<{n}ns>"),
        })
        .collect()
}

fn single(line: &Line) -> String {
    assert_eq!(line.spans.len(), 1);
    texts(line).concat()
}

#[test]
fn staged_panel_heights() {
    assert_eq!(ui::staged_panel_height(0), 0);
    assert_eq!(ui::staged_panel_height(1), 3);
    assert_eq!(ui::staged_panel_height(6), 8);
    assert_eq!(ui::staged_panel_height(100), 8);
}

#[test]
fn type_selector_highlights_selection() {
    let mut app = App::new(CommitOpts { conventional: true, extra_args: vec![] }, None, vec![]);
    app.type_selection = 1;
    let p = ui::type_selector(&app);
    assert_eq!(p.title, " Select commit type (↑/↓ Enter) ");
    assert_eq!(p.lines.len(), 10);
    assert_eq!(texts(&p.lines[0]), vec!["  feat      ", " A new feature"]);
    assert_eq!(texts(&p.lines[3]), vec!["  refactor  ", " Code restructuring"]);
    let sel = Style { fg: Some(Color::Cyan), bold: true, reversed: true };
    assert_eq!(p.lines[1].spans[0].style, sel);
    assert_eq!(p.lines[1].spans[1].style, sel);
    assert_eq!(p.lines[0].spans[0].style, Style { fg: None, bold: false, reversed: false });
    assert_eq!(p.lines[0].spans[1].style.fg, Some(Color::DarkGray));
}

#[test]
fn scope_input_panel() {
    let mut app = new_app();
    app.input_mode = InputMode::EnterScope;
    app.type_selection = 1;
    app.scope_input = "api".to_string();
    let p = ui::scope_input(&app);
    assert_eq!(p.title, " fix — enter scope (optional, Enter to skip) ");
    assert_eq!(texts(&p.lines[0]), vec!["  ", "fix(", "api", "): "]);
    assert_eq!(p.lines[0].spans[2].style, Style { fg: Some(Color::Cyan), bold: true, reversed: false });
}

#[test]
fn staged_files_panel() {
    let mut app = new_app();
    app.staged_files = vec!["A\tnew.rs".into(), "D\told.rs".into(), "M\tlib.rs".into(), "R100\ta\tb".into()];
    let p = ui::staged_files(&app);
    assert_eq!(p.title, " Staged files (4) ");
    assert_eq!(single(&p.lines[0]), "  A\tnew.rs");
    let colors: Vec<Option<Color>> = p.lines.iter().map(|l| l.spans[0].style.fg).collect();
    assert_eq!(colors, vec![Some(Color::Green), Some(Color::Red), Some(Color::Yellow), Some(Color::DarkGray)]);
}

#[test]
fn hook_output_window() {
    let mut app = new_app();
    app.hook_output = (0..10).map(|i| format!("line{i}")).collect();
    app.hook_scroll = 9;
    let ls = ui::hook_output_lines(&app, 3, Color::Red);
    let shown: Vec<String> = ls.iter().map(single).collect();
    assert_eq!(shown, vec!["  ↑ 7 more", "  line7", "  line8", "  line9"]);
    assert_eq!(ls[1].spans[0].style.fg, Some(Color::Red));
    assert_eq!(ls[0].spans[0].style.fg, Some(Color::DarkGray));

    app.hook_scroll = 4;
    let shown: Vec<String> = ui::hook_output_lines(&app, 3, Color::Red).iter().map(single).collect();
    assert_eq!(shown, vec!["  ↑ 2 more", "  line2", "  line3", "  line4", "  ↓ 5 more"]);

    app.hook_scroll = 1;
    let shown: Vec<String> = ui::hook_output_lines(&app, 5, Color::Red).iter().map(single).collect();
    assert_eq!(shown, vec!["  line0", "  line1", "  ↓ 8 more"]);

    assert!(ui::hook_output_lines(&app, 0, Color::Red).is_empty());
    app.hook_output.clear();
    assert!(ui::hook_output_lines(&app, 5, Color::Red).is_empty());
}

#[test]
fn hook_panel_by_status() {
    let mut app = new_app();
    app.tick_count = 5;
    app.hook_output = vec!["a".into(), "b".into()];
    app.hook_scroll = 1;
    let p = ui::hook_panel(&app, 10);
    assert_eq!(p.title, " Pre-commit hook ");
    assert_eq!(p.border, Color::Yellow);
    let shown: Vec<String> = p.lines.iter().map(single).collect();
    assert_eq!(shown, vec!["  ⠹ Running...", "  a", "  b"]);

    let p = ui::hook_panel(&app, 4);
    let shown: Vec<String> = p.lines.iter().map(single).collect();
    assert_eq!(shown, vec!["  ⠹ Running...", "  ↑ 1 more", "  b"]);
    let p = ui::hook_panel(&app, 2);
    assert_eq!(p.lines.len(), 1);

    app.hook_status = HookStatus::Passed(1_250_000_000);
    let p = ui::hook_panel(&app, 10);
    assert_eq!(p.border, Color::Green);
    assert_eq!(p.lines.len(), 1);
    assert_eq!(texts(&p.lines[0]), vec!["  ✅ Passed (", "<1250000000ns>", "s)"]);

    app.hook_status = HookStatus::Failed(3);
    let p = ui::hook_panel(&app, 10);
    assert_eq!(p.border, Color::Red);
    assert_eq!(p.lines.len(), 3);
    assert_eq!(texts(&p.lines[0]), vec!["  ❌ Failed (", "<3ns>", "s)"]);
    assert_eq!(p.lines[1].spans[0].style.fg, Some(Color::Red));

    app.hook_status = HookStatus::Waiting;
    assert_eq!(single(&ui::hook_panel(&app, 10).lines[0]), "  ⏳ Waiting for hook to finish...");
    app.hook_status = HookStatus::NoHook;
    let p = ui::hook_panel(&app, 10);
    assert_eq!(single(&p.lines[0]), "  No pre-commit hook found — will commit directly");
    assert_eq!(p.border, Color::Yellow);
}

#[test]
fn footer_hints() {
    let mut app = new_app();
    assert_eq!(texts(&ui::footer(&app)).concat(), "  Ctrl+S: commit   Ctrl+C/Esc: abort");
    app.hook_status = HookStatus::Failed(1);
    assert_eq!(texts(&ui::footer(&app)).concat(), "  Ctrl+S: commit   Ctrl+C/Esc: abort   Ctrl+R: retry");
    app.input_mode = InputMode::SelectType;
    assert_eq!(texts(&ui::footer(&app)).concat(), "  ↑/↓: navigate   Enter: select   Esc: abort");
    app.input_mode = InputMode::EnterScope;
    assert_eq!(texts(&ui::footer(&app)).concat(), "  Enter: confirm   Esc: abort");
}
