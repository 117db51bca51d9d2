//! What each part of the screen shows: titles, lines of styled text and
//! border colours, computed from the editor state. Laying the parts out and
//! drawing them on the terminal is the front end's work.
use vstd::prelude::*;
use crate::app::{App, AppView, HookStatus, InputMode, COMMIT_TYPE_COUNT, commit_kind_name, commit_kind_desc, commit_type};
use crate::text::{decimal, decimal_string, pad_right, pad_right_str, push_char, push_str};

verus! {

// ---------------------------------------------------------------------------
// Styled text
// ---------------------------------------------------------------------------

/// The colours the screen uses.
#[derive(Clone, Copy, Debug, PartialEq, Eq)]
pub enum Color {
    Cyan,
    DarkGray,
    Green,
    Red,
    Yellow,
}

/// A text style: foreground colour (the terminal's default when `None`),
/// bold, reversed.
#[derive(Clone, Copy, Debug, PartialEq, Eq)]
pub struct Style {
    pub fg: Option<Color>,
    pub bold: bool,
    pub reversed: bool,
}

/// A piece of text: literal text, or a duration in nanoseconds shown in
/// seconds with one decimal.
#[derive(Debug, PartialEq, Eq)]
pub enum Piece {
    Text(String),
    Seconds(u64),
}

/// A piece of text in one style.
#[derive(Debug, PartialEq, Eq)]
pub struct Span {
    pub piece: Piece,
    pub style: Style,
}

/// One line of styled text.
#[derive(Debug, PartialEq, Eq)]
pub struct Line {
    pub spans: Vec<Span>,
}

/// A bordered panel: title, border colour and content lines.
#[derive(Debug, PartialEq, Eq)]
pub struct Panel {
    pub title: String,
    pub border: Color,
    pub lines: Vec<Line>,
}

pub enum PieceView {
    Text(Seq<char>),
    Seconds(u64),
}

pub struct SpanView {
    pub piece: PieceView,
    pub style: Style,
}

pub struct PanelView {
    pub title: Seq<char>,
    pub border: Color,
    pub lines: Seq<Seq<SpanView>>,
}

impl View for Span {
    type V = SpanView;

    open spec fn view(&self) -> SpanView {
        SpanView {
            piece: match self.piece {
                Piece::Text(t) => PieceView::Text(t@),
                Piece::Seconds(n) => PieceView::Seconds(n),
            },
            style: self.style,
        }
    }
}

impl View for Line {
    type V = Seq<SpanView>;

    open spec fn view(&self) -> Seq<SpanView> {
        self.spans@.map_values(|s: Span| s@)
    }
}

/// The views of a list of lines.
pub open spec fn lines_view(ls: Seq<Line>) -> Seq<Seq<SpanView>> {
    ls.map_values(|l: Line| l@)
}

impl View for Panel {
    type V = PanelView;

    open spec fn view(&self) -> PanelView {
        PanelView { title: self.title@, border: self.border, lines: lines_view(self.lines@) }
    }
}

/// The default style.
pub open spec fn plain() -> Style {
    Style { fg: None, bold: false, reversed: false }
}

/// Coloured text.
pub open spec fn colored(c: Color) -> Style {
    Style { fg: Some(c), bold: false, reversed: false }
}

/// Coloured bold text.
pub open spec fn strong(c: Color) -> Style {
    Style { fg: Some(c), bold: true, reversed: false }
}

/// Literal text in a style.
pub open spec fn text(t: Seq<char>, s: Style) -> SpanView {
    SpanView { piece: PieceView::Text(t), style: s }
}

fn style_plain() -> (s: Style)
    ensures
        s == plain(),
{
    Style { fg: None, bold: false, reversed: false }
}

fn style_colored(c: Color) -> (s: Style)
    ensures
        s == colored(c),
{
    Style { fg: Some(c), bold: false, reversed: false }
}

fn style_strong(c: Color) -> (s: Style)
    ensures
        s == strong(c),
{
    Style { fg: Some(c), bold: true, reversed: false }
}

fn text_span(t: String, style: Style) -> (s: Span)
    ensures
        s@ == text(t@, style),
{
    Span { piece: Piece::Text(t), style }
}

fn lit_span(t: &str, style: Style) -> (s: Span)
    ensures
        s@ == text(t@, style),
{
    Span { piece: Piece::Text(t.to_owned()), style }
}

fn one_span_line(s: Span) -> (l: Line)
    ensures
        l@ == seq![s@],
{
    let ghost sv = s@;
    let mut spans: Vec<Span> = Vec::new();
    spans.push(s);
    assert(spans@.map_values(|s: Span| s@) =~= seq![sv]);
    Line { spans }
}

fn push_line(ls: &mut Vec<Line>, l: Line)
    ensures
        lines_view(final(ls)@) == lines_view(old(ls)@).push(l@),
{
    let ghost lv = l@;
    ls.push(l);
    assert(lines_view(ls@) =~= lines_view(old(ls)@).push(lv));
}

fn push_span(l: &mut Line, s: Span)
    ensures
        final(l)@ == old(l)@.push(s@),
{
    let ghost sv = s@;
    l.spans.push(s);
    assert(l@ =~= old(l)@.push(sv));
}

fn empty_line() -> (l: Line)
    ensures
        l@ == Seq::<SpanView>::empty(),
{
    let l = Line { spans: Vec::new() };
    assert(l@ =~= Seq::<SpanView>::empty());
    l
}

fn no_lines() -> (ls: Vec<Line>)
    ensures
        lines_view(ls@) == Seq::<Seq<SpanView>>::empty(),
{
    let ls: Vec<Line> = Vec::new();
    assert(lines_view(ls@) =~= Seq::<Seq<SpanView>>::empty());
    ls
}

// ---------------------------------------------------------------------------
// Layout
// ---------------------------------------------------------------------------

/// Rows given to the staged-files panel for `n` staged files: none without
/// files, otherwise two border rows plus one per file (the count taken as a
/// 16-bit number), at most 8.
pub open spec fn staged_height_spec(n: nat) -> int {
    if n == 0 {
        0
    } else {
        let h: int = (n % 65536) as int + 2;
        if h < 8 {
            h
        } else {
            8
        }
    }
}

/// Rows of the staged-files panel. The 16-bit addition must not overflow.
pub fn staged_panel_height(n: usize) -> (h: u16)
    requires
        (n % 65536) + 2 <= u16::MAX,
    ensures
        h == staged_height_spec(n as nat),
{
    if n == 0 {
        0
    } else {
        let low = (n % 65536) as u16;
        let h = low + 2;
        if h < 8 {
            h
        } else {
            8
        }
    }
}

// ---------------------------------------------------------------------------
// Commit type selector and scope input
// ---------------------------------------------------------------------------

/// The highlight of the selected commit type.
pub open spec fn selected_style() -> Style {
    Style { fg: Some(Color::Cyan), bold: true, reversed: true }
}

/// Line `i` of the type selector: the name padded to ten columns, then the
/// description; the selected line is highlighted, other descriptions dim.
pub open spec fn type_item(i: int, sel: int) -> Seq<SpanView> {
    let st = if i == sel {
        selected_style()
    } else {
        plain()
    };
    seq![
        text("  "@ + pad_right(commit_kind_name(i), 10), st),
        text(seq![' '] + commit_kind_desc(i), if i == sel { st } else { colored(Color::DarkGray) }),
    ]
}

/// The commit type selector.
pub open spec fn type_selector_spec(sel: int) -> PanelView {
    PanelView {
        title: " Select commit type (↑/↓ Enter) "@,
        border: Color::Cyan,
        lines: Seq::new(COMMIT_TYPE_COUNT as nat, |i: int| type_item(i, sel)),
    }
}

/// The commit type selector with `app.type_selection` highlighted.
pub fn type_selector(app: &App) -> (p: Panel)
    ensures
        p@ == type_selector_spec(app.type_selection as int),
{
    let sel = app.type_selection;
    let mut lines: Vec<Line> = Vec::new();
    let mut i: usize = 0;
    while i < COMMIT_TYPE_COUNT
        invariant
            i <= COMMIT_TYPE_COUNT,
            sel == app.type_selection,
            lines_view(lines@) == Seq::new(i as nat, |k: int| type_item(k, sel as int)),
        decreases COMMIT_TYPE_COUNT - i,
    {
        let (name, desc) = commit_type(i);
        let st = if i == sel {
            Style { fg: Some(Color::Cyan), bold: true, reversed: true }
        } else {
            style_plain()
        };
        let mut first = "  ".to_owned();
        push_str(&mut first, pad_right_str(name, 10).as_str());
        let mut second = String::new();
        push_char(&mut second, ' ');
        push_str(&mut second, desc);
        assert(second@ =~= seq![' '] + commit_kind_desc(i as int));
        let st2 = if i == sel {
            st
        } else {
            style_colored(Color::DarkGray)
        };
        let mut line = one_span_line(text_span(first, st));
        push_span(&mut line, text_span(second, st2));
        assert(line@ =~= type_item(i as int, sel as int));
        push_line(&mut lines, line);
        i = i + 1;
        assert(lines_view(lines@) =~= Seq::new(i as nat, |k: int| type_item(k, sel as int)));
    }
    Panel { title: " Select commit type (↑/↓ Enter) ".to_owned(), border: Color::Cyan, lines }
}

/// The scope input: the chosen type in the title and the scope being typed
/// between the type and `): `.
pub open spec fn scope_input_spec(sel: int, scope: Seq<char>) -> PanelView {
    PanelView {
        title: seq![' '] + commit_kind_name(sel) + " — enter scope (optional, Enter to skip) "@,
        border: Color::Cyan,
        lines: seq![
            seq![
                text("  "@, plain()),
                text(commit_kind_name(sel) + seq!['('], colored(Color::DarkGray)),
                text(scope, strong(Color::Cyan)),
                text("): "@, colored(Color::DarkGray)),
            ],
        ],
    }
}

/// The scope input panel.
pub fn scope_input(app: &App) -> (p: Panel)
    requires
        app.type_selection < COMMIT_TYPE_COUNT,
    ensures
        p@ == scope_input_spec(app.type_selection as int, app.scope_input@),
{
    let (name, _) = commit_type(app.type_selection);
    let mut title = String::new();
    push_char(&mut title, ' ');
    push_str(&mut title, name);
    push_str(&mut title, " — enter scope (optional, Enter to skip) ");
    let mut open = name.to_owned();
    push_char(&mut open, '(');
    assert(open@ =~= commit_kind_name(app.type_selection as int) + seq!['(']);
    let mut line = one_span_line(lit_span("  ", style_plain()));
    push_span(&mut line, text_span(open, style_colored(Color::DarkGray)));
    push_span(&mut line, lit_span(app.scope_input.as_str(), style_strong(Color::Cyan)));
    push_span(&mut line, lit_span("): ", style_colored(Color::DarkGray)));
    let ghost want = scope_input_spec(app.type_selection as int, app.scope_input@).lines[0];
    assert(line@ =~= want);
    let mut lines = no_lines();
    push_line(&mut lines, line);
    let p = Panel { title, border: Color::Cyan, lines };
    assert(p@.title =~= scope_input_spec(app.type_selection as int, app.scope_input@).title);
    assert(p@.lines =~~= scope_input_spec(app.type_selection as int, app.scope_input@).lines);
    p
}

// ---------------------------------------------------------------------------
// Staged files
// ---------------------------------------------------------------------------

/// The colour of a `git diff --name-status` line: added green, deleted red,
/// modified yellow, anything else dim.
pub open spec fn status_color(entry: Seq<char>) -> Color {
    if entry.len() > 0 && entry[0] == 'A' {
        Color::Green
    } else if entry.len() > 0 && entry[0] == 'D' {
        Color::Red
    } else if entry.len() > 0 && entry[0] == 'M' {
        Color::Yellow
    } else {
        Color::DarkGray
    }
}

/// The staged files panel: the count in the title, one coloured line per
/// file.
pub open spec fn staged_files_spec(files: Seq<Seq<char>>) -> PanelView {
    PanelView {
        title: " Staged files ("@ + decimal(files.len()) + ") "@,
        border: Color::Cyan,
        lines: Seq::new(
            files.len(),
            |i: int| seq![text("  "@ + files[i], colored(status_color(files[i])))],
        ),
    }
}

/// The staged files panel.
pub fn staged_files(app: &App) -> (p: Panel)
    ensures
        p@ == staged_files_spec(app@.staged_files),
{
    let files = &app.staged_files;
    let n = files.len();
    let ghost fv = app@.staged_files;
    let mut lines: Vec<Line> = Vec::new();
    let mut i: usize = 0;
    while i < n
        invariant
            i <= n == files@.len() == fv.len(),
            fv == files.deep_view(),
            lines_view(lines@) == Seq::new(
                i as nat,
                |k: int| seq![text("  "@ + fv[k], colored(status_color(fv[k])))],
            ),
        decreases n - i,
    {
        let entry = files[i].as_str();
        assert(entry@ == fv[i as int]);
        let color = if crate::text::starts_with_char(entry, 'A') {
            Color::Green
        } else if crate::text::starts_with_char(entry, 'D') {
            Color::Red
        } else if crate::text::starts_with_char(entry, 'M') {
            Color::Yellow
        } else {
            Color::DarkGray
        };
        let mut t = "  ".to_owned();
        push_str(&mut t, entry);
        push_line(&mut lines, one_span_line(text_span(t, style_colored(color))));
        i = i + 1;
        assert(lines_view(lines@) =~= Seq::new(
            i as nat,
            |k: int| seq![text("  "@ + fv[k], colored(status_color(fv[k])))],
        ));
    }
    let mut title = " Staged files (".to_owned();
    push_str(&mut title, decimal_string(n).as_str());
    push_str(&mut title, ") ");
    Panel { title, border: Color::Cyan, lines }
}

// ---------------------------------------------------------------------------
// Hook panel
// ---------------------------------------------------------------------------

/// The part of the hook output on screen for `len` lines, the view ending
/// at line `scroll` and `max` rows: lines `start..end`.
pub open spec fn output_window(len: int, scroll: int, max: int) -> (int, int) {
    let end = if scroll + 1 < len {
        scroll + 1
    } else {
        len
    };
    let start = if end > max {
        end - max
    } else {
        0
    };
    (start, end)
}

/// The hook output lines shown: how many lines are hidden above, the
/// visible lines in colour `c`, and how many are hidden below.
pub open spec fn output_lines_spec(out: Seq<Seq<char>>, scroll: int, max: int, c: Color) -> Seq<
    Seq<SpanView>,
> {
    if out.len() == 0 || max == 0 {
        Seq::empty()
    } else {
        let (start, end) = output_window(out.len() as int, scroll, max);
        let above: Seq<Seq<SpanView>> = if start > 0 {
            seq![seq![text("  ↑ "@ + decimal(start as nat) + " more"@, colored(Color::DarkGray))]]
        } else {
            Seq::empty()
        };
        let body = Seq::new(
            (end - start) as nat,
            |k: int| seq![text("  "@ + out[start + k], colored(c))],
        );
        let below: Seq<Seq<SpanView>> = if end < out.len() {
            seq![
                seq![
                    text("  ↓ "@ + decimal((out.len() - end) as nat) + " more"@, colored(Color::DarkGray)),
                ],
            ]
        } else {
            Seq::empty()
        };
        above + body + below
    }
}

/// The hook output lines that fit in `max_lines` rows, ending at the scroll
/// position.
pub fn hook_output_lines(app: &App, max_lines: usize, color: Color) -> (ls: Vec<Line>)
    requires
        app.hook_output.len() > 0 && max_lines > 0 ==> app.hook_scroll < usize::MAX,
    ensures
        lines_view(ls@) == output_lines_spec(
            app@.hook_output,
            app.hook_scroll as int,
            max_lines as int,
            color,
        ),
{
    let output = &app.hook_output;
    let ghost ov = app@.hook_output;
    if output.len() == 0 || max_lines == 0 {
        return no_lines();
    }
    let len = output.len();
    let end = if app.hook_scroll + 1 < len {
        app.hook_scroll + 1
    } else {
        len
    };
    let start = if end > max_lines {
        end - max_lines
    } else {
        0
    };
    let mut lines = no_lines();
    if start > 0 {
        let mut t = "  ↑ ".to_owned();
        push_str(&mut t, decimal_string(start).as_str());
        push_str(&mut t, " more");
        push_line(&mut lines, one_span_line(text_span(t, style_colored(Color::DarkGray))));
    }
    let ghost above = lines_view(lines@);
    let mut i = start;
    while i < end
        invariant
            start <= i <= end <= len == output@.len() == ov.len(),
            ov == output.deep_view(),
            lines_view(lines@) == above + Seq::new(
                (i - start) as nat,
                |k: int| seq![text("  "@ + ov[start + k], colored(color))],
            ),
        decreases end - i,
    {
        let mut t = "  ".to_owned();
        push_str(&mut t, output[i].as_str());
        assert(t@ == "  "@ + ov[i as int]);
        push_line(&mut lines, one_span_line(text_span(t, style_colored(color))));
        i = i + 1;
        assert(lines_view(lines@) =~= above + Seq::new(
            (i - start) as nat,
            |k: int| seq![text("  "@ + ov[start + k], colored(color))],
        ));
    }
    let ghost shown = lines_view(lines@);
    if end < len {
        let mut t = "  ↓ ".to_owned();
        push_str(&mut t, decimal_string(len - end).as_str());
        push_str(&mut t, " more");
        push_line(&mut lines, one_span_line(text_span(t, style_colored(Color::DarkGray))));
    }
    proof {
        let spec = output_lines_spec(ov, app.hook_scroll as int, max_lines as int, color);
        if end < len {
            assert(lines_view(lines@) =~= spec);
        } else {
            assert(lines_view(lines@) =~= spec);
        }
    }
    lines
}

/// The spinner frames.
pub open spec fn spinner(i: int) -> char {
    if i == 0 {
        '⠋'
    } else if i == 1 {
        '⠙'
    } else if i == 2 {
        '⠹'
    } else if i == 3 {
        '⠸'
    } else if i == 4 {
        '⠼'
    } else if i == 5 {
        '⠴'
    } else if i == 6 {
        '⠦'
    } else if i == 7 {
        '⠧'
    } else if i == 8 {
        '⠇'
    } else {
        '⠏'
    }
}

fn spinner_char(i: usize) -> (c: char)
    requires
        i < 10,
    ensures
        c == spinner(i as int),
{
    if i == 0 {
        '⠋'
    } else if i == 1 {
        '⠙'
    } else if i == 2 {
        '⠹'
    } else if i == 3 {
        '⠸'
    } else if i == 4 {
        '⠼'
    } else if i == 5 {
        '⠴'
    } else if i == 6 {
        '⠦'
    } else if i == 7 {
        '⠧'
    } else if i == 8 {
        '⠇'
    } else {
        '⠏'
    }
}

/// The first line of a finished hook: label, elapsed seconds, and `s)`.
pub open spec fn elapsed_line(label: Seq<char>, nanos: u64, st: Style) -> Seq<SpanView> {
    seq![
        text(label, st),
        SpanView { piece: PieceView::Seconds(nanos), style: st },
        text("s)"@, st),
    ]
}

/// The hook panel for an area `height` rows high: the status line, and
/// while the hook runs or after it failed, as much of its output as fits
/// below the status line inside the border.
pub open spec fn hook_panel_spec(v: AppView, height: int) -> PanelView {
    let max = if height >= 3 {
        height - 3
    } else {
        0
    };
    let (lines, border) = match v.hook_status {
        HookStatus::NoHook => (
            seq![
                seq![
                    text(
                        "  No pre-commit hook found — will commit directly"@,
                        colored(Color::DarkGray),
                    ),
                ],
            ],
            Color::Yellow,
        ),
        HookStatus::Running => (
            seq![
                seq![
                    text(
                        seq![' ', ' ', spinner((v.tick_count / 2) % 10)] + " Running..."@,
                        strong(Color::Yellow),
                    ),
                ],
            ] + output_lines_spec(v.hook_output, v.hook_scroll, max, Color::DarkGray),
            Color::Yellow,
        ),
        HookStatus::Passed(n) => (
            seq![elapsed_line("  ✅ Passed ("@, n, strong(Color::Green))],
            Color::Green,
        ),
        HookStatus::Failed(n) => (
            seq![elapsed_line("  ❌ Failed ("@, n, strong(Color::Red))] + output_lines_spec(
                v.hook_output,
                v.hook_scroll,
                max,
                Color::Red,
            ),
            Color::Red,
        ),
        HookStatus::Waiting => (
            seq![seq![text("  ⏳ Waiting for hook to finish..."@, strong(Color::Yellow))]],
            Color::Yellow,
        ),
    };
    PanelView { title: " Pre-commit hook "@, border, lines }
}

fn elapsed_status(label: &str, nanos: u64, st: Style) -> (l: Line)
    ensures
        l@ == elapsed_line(label@, nanos, st),
{
    let mut l = one_span_line(lit_span(label, st));
    push_span(&mut l, Span { piece: Piece::Seconds(nanos), style: st });
    push_span(&mut l, lit_span("s)", st));
    assert(l@ =~= elapsed_line(label@, nanos, st));
    l
}

fn append_lines(ls: &mut Vec<Line>, more: Vec<Line>)
    ensures
        lines_view(final(ls)@) == lines_view(old(ls)@) + lines_view(more@),
{
    let mut more = more;
    let ghost mv = lines_view(more@);
    let ghost start = lines_view(ls@);
    let mut rest: Vec<Line> = Vec::new();
    while more.len() > 0
        invariant
            lines_view(rest@) + lines_view(more@).reverse() =~= mv.reverse(),
        decreases more.len(),
    {
        let ghost before_more = lines_view(more@);
        let ghost before_rest = lines_view(rest@);
        let l = more.pop().unwrap();
        proof {
            assert(before_more =~= lines_view(more@).push(l@));
        }
        push_line(&mut rest, l);
        assert(before_more.reverse() =~= seq![l@] + lines_view(more@).reverse());
    }
    assert(lines_view(rest@) =~= mv.reverse());
    while rest.len() > 0
        invariant
            lines_view(ls@) + lines_view(rest@).reverse() =~= start + mv,
        decreases rest.len(),
    {
        let ghost before_rest = lines_view(rest@);
        let l = rest.pop().unwrap();
        proof {
            assert(before_rest =~= lines_view(rest@).push(l@));
        }
        push_line(ls, l);
        assert(before_rest.reverse() =~= seq![l@] + lines_view(rest@).reverse());
    }
}

/// The hook panel for an area `area_height` rows high.
pub fn hook_panel(app: &App, area_height: u16) -> (p: Panel)
    requires
        (app.hook_status is Running || app.hook_status is Failed) && app.hook_output.len() > 0
            && area_height > 3 ==> app.hook_scroll < usize::MAX,
    ensures
        p@ == hook_panel_spec(app@, area_height as int),
{
    let max = if area_height >= 3 {
        (area_height - 3) as usize
    } else {
        0
    };
    let mut lines = no_lines();
    let border = match app.hook_status {
        HookStatus::NoHook => {
            push_line(
                &mut lines,
                one_span_line(
                    lit_span(
                        "  No pre-commit hook found — will commit directly",
                        style_colored(Color::DarkGray),
                    ),
                ),
            );
            assert(lines_view(lines@) =~~= hook_panel_spec(app@, area_height as int).lines);
            Color::Yellow
        },
        HookStatus::Running => {
            let frame = (app.tick_count / 2) % 10;
            let mut t = String::new();
            push_char(&mut t, ' ');
            push_char(&mut t, ' ');
            push_char(&mut t, spinner_char(frame));
            push_str(&mut t, " Running...");
            assert(t@ =~= seq![' ', ' ', spinner((app@.tick_count / 2) % 10)] + " Running..."@);
            push_line(&mut lines, one_span_line(text_span(t, style_strong(Color::Yellow))));
            append_lines(&mut lines, hook_output_lines(app, max, Color::DarkGray));
            assert(lines_view(lines@) =~~= hook_panel_spec(app@, area_height as int).lines);
            Color::Yellow
        },
        HookStatus::Passed(n) => {
            push_line(&mut lines, elapsed_status("  ✅ Passed (", n, style_strong(Color::Green)));
            assert(lines_view(lines@) =~~= hook_panel_spec(app@, area_height as int).lines);
            Color::Green
        },
        HookStatus::Failed(n) => {
            push_line(&mut lines, elapsed_status("  ❌ Failed (", n, style_strong(Color::Red)));
            append_lines(&mut lines, hook_output_lines(app, max, Color::Red));
            assert(lines_view(lines@) =~~= hook_panel_spec(app@, area_height as int).lines);
            Color::Red
        },
        HookStatus::Waiting => {
            push_line(
                &mut lines,
                one_span_line(
                    lit_span("  ⏳ Waiting for hook to finish...", style_strong(Color::Yellow)),
                ),
            );
            assert(lines_view(lines@) =~~= hook_panel_spec(app@, area_height as int).lines);
            Color::Yellow
        },
    };
    let p = Panel { title: " Pre-commit hook ".to_owned(), border, lines };
    assert(p@.lines =~~= hook_panel_spec(app@, area_height as int).lines);
    p
}

// ---------------------------------------------------------------------------
// Footer
// ---------------------------------------------------------------------------

/// The key hints at the bottom of the screen, by mode; while editing the
/// message after a failed hook, the retry key is offered too.
pub open spec fn footer_spec(v: AppView) -> Seq<SpanView> {
    let key = strong(Color::Cyan);
    match v.input_mode {
        InputMode::SelectType => seq![
            text("  ↑/↓"@, key),
            text(": navigate   "@, plain()),
            text("Enter"@, key),
            text(": select   "@, plain()),
            text("Esc"@, key),
            text(": abort"@, plain()),
        ],
        InputMode::EnterScope => seq![
            text("  Enter"@, key),
            text(": confirm   "@, plain()),
            text("Esc"@, key),
            text(": abort"@, plain()),
        ],
        InputMode::EditMessage => {
            let s = seq![
                text("  Ctrl+S"@, key),
                text(": commit   "@, plain()),
                text("Ctrl+C"@, key),
                text("/"@, plain()),
                text("Esc"@, key),
                text(": abort"@, plain()),
            ];
            if v.hook_status is Failed {
                s + seq![text("   "@, plain()), text("Ctrl+R"@, key), text(": retry"@, plain())]
            } else {
                s
            }
        },
    }
}

/// The footer line.
pub fn footer(app: &App) -> (l: Line)
    ensures
        l@ == footer_spec(app@),
{
    let key = style_strong(Color::Cyan);
    let p = style_plain();
    let mut l = empty_line();
    match app.input_mode {
        InputMode::SelectType => {
            push_span(&mut l, lit_span("  ↑/↓", key));
            push_span(&mut l, lit_span(": navigate   ", p));
            push_span(&mut l, lit_span("Enter", key));
            push_span(&mut l, lit_span(": select   ", p));
            push_span(&mut l, lit_span("Esc", key));
            push_span(&mut l, lit_span(": abort", p));
        },
        InputMode::EnterScope => {
            push_span(&mut l, lit_span("  Enter", key));
            push_span(&mut l, lit_span(": confirm   ", p));
            push_span(&mut l, lit_span("Esc", key));
            push_span(&mut l, lit_span(": abort", p));
        },
        InputMode::EditMessage => {
            push_span(&mut l, lit_span("  Ctrl+S", key));
            push_span(&mut l, lit_span(": commit   ", p));
            push_span(&mut l, lit_span("Ctrl+C", key));
            push_span(&mut l, lit_span("/", p));
            push_span(&mut l, lit_span("Esc", key));
            push_span(&mut l, lit_span(": abort", p));
            match app.hook_status {
                HookStatus::Failed(_) => {
                    push_span(&mut l, lit_span("   ", p));
                    push_span(&mut l, lit_span("Ctrl+R", key));
                    push_span(&mut l, lit_span(": retry", p));
                },
                _ => {},
            }
        },
    }
    assert(l@ =~= footer_spec(app@));
    l
}

} // verus!
