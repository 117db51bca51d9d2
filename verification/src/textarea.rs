//! The multi-line message editor. Editing is done by `tui_textarea`; the
//! library sees its contents through `editor_model`.
use vstd::prelude::*;
use tui_textarea::{Input, Key, TextArea};
use crate::key::{KeyCode, TextInput};
use crate::text::{pieces, strip_cr};

verus! {

/// The message editor. `widget` is the `tui_textarea::TextArea` that holds
/// the text. The struct is opaque to the proofs: the library reaches the
/// widget only through the methods below, and sees its contents through
/// `editor_model`. The field is public so that the terminal front end can
/// draw the widget.
#[verifier::external_body]
pub struct Editor {
    pub widget: TextArea<'static>,
}

/// What an editor holds: its lines, the cursor (row and column, counted in
/// characters), whether a selection is in progress, the placeholder text
/// shown while it is empty, and how Tab indents (the tab width in columns,
/// and whether a hard tab character is inserted instead of spaces).
pub struct TextModel {
    pub lines: Seq<Seq<char>>,
    pub row: int,
    pub col: int,
    pub selecting: bool,
    pub placeholder: Seq<char>,
    pub tab_len: nat,
    pub hard_tab: bool,
}

/// The contents of an editor.
pub uninterp spec fn editor_model(e: Editor) -> TextModel;

/// The editor's own invariant: there is at least one line, and the cursor
/// is on a line, at most at its end.
pub open spec fn cursor_in_text(m: TextModel) -> bool {
    &&& 0 <= m.row < m.lines.len()
    &&& 0 <= m.col <= m.lines[m.row].len()
}

/// A fresh editor holding `lines` (one empty line when `lines` is empty),
/// with the cursor at the start, nothing selected, no placeholder, and Tab
/// inserting spaces up to the next multiple of 4 columns.
pub open spec fn fresh_model(lines: Seq<Seq<char>>) -> TextModel {
    TextModel {
        lines: if lines.len() == 0 { seq![Seq::<char>::empty()] } else { lines },
        row: 0,
        col: 0,
        selecting: false,
        placeholder: Seq::empty(),
        tab_len: 4,
        hard_tab: false,
    }
}

/// The character offset in `line` for cursor column `col`: the column, or
/// the end of the line when the column is past it.
pub open spec fn clamp_col(line: Seq<char>, col: int) -> int {
    if col <= line.len() {
        col
    } else {
        line.len() as int
    }
}

/// `s` inserted into `line` before character `col` (at the end when `col`
/// is past it).
pub open spec fn insert_at(line: Seq<char>, col: int, s: Seq<char>) -> Seq<char> {
    let k = clamp_col(line, col);
    line.take(k) + s + line.skip(k)
}

/// The model after inserting newline-free text `t` at the cursor.
pub open spec fn model_after_insert(m: TextModel, t: Seq<char>) -> TextModel {
    TextModel {
        lines: m.lines.update(m.row, insert_at(m.lines[m.row], m.col, t)),
        row: m.row,
        col: m.col + t.len(),
        selecting: false,
        ..m
    }
}

/// The lines a string is inserted as: split at `'\n'`, each piece without
/// one trailing `'\r'`.
pub open spec fn chunk_of(s: Seq<char>) -> Seq<Seq<char>> {
    pieces(s).map_values(|p: Seq<char>| strip_cr(p))
}

/// The model after inserting `s` at the cursor, and whether anything was
/// inserted: a single piece goes into the cursor's line; several pieces
/// split the line at the cursor, the first piece ending the line's head, the
/// middle ones as lines of their own, and the last one starting its tail,
/// with the cursor after the last piece.
pub open spec fn model_after_insert_str(m: TextModel, s: Seq<char>) -> (TextModel, bool) {
    let c = chunk_of(s);
    if c.len() == 1 {
        if c[0].len() > 0 {
            (model_after_insert(m, c[0]), true)
        } else {
            (m, false)
        }
    } else {
        let line = m.lines[m.row];
        let k = clamp_col(line, m.col);
        let n = c.len();
        (
            TextModel {
                lines: m.lines.take(m.row) + seq![line.take(k) + c[0]] + c.subrange(1, n - 1)
                    + seq![c.last() + line.skip(k)] + m.lines.skip(m.row + 1),
                row: m.row + n - 1,
                col: c.last().len() as int,
                selecting: false,
                ..m
            },
            true,
        )
    }
}

/// The model after a newline at the cursor: the line is split there and the
/// cursor goes to the start of the new line.
pub open spec fn model_after_newline(m: TextModel) -> TextModel {
    let line = m.lines[m.row];
    let k = clamp_col(line, m.col);
    TextModel {
        lines: m.lines.update(m.row, line.take(k)).insert(m.row + 1, line.skip(k)),
        row: m.row + 1,
        col: 0,
        selecting: false,
        ..m
    }
}

/// The model after deleting the character before the cursor, and whether
/// anything was deleted: at the start of a line the line is joined to the
/// one before it (nothing happens on the first line); past the end of the
/// line nothing happens.
pub open spec fn model_after_backspace(m: TextModel) -> (TextModel, bool) {
    let line = m.lines[m.row];
    if m.col == 0 {
        if m.row == 0 {
            (m, false)
        } else {
            let prev = m.lines[m.row - 1];
            (
                TextModel {
                    lines: m.lines.update(m.row - 1, prev + line).remove(m.row),
                    row: m.row - 1,
                    col: prev.len() as int,
                    ..m
                },
                true,
            )
        }
    } else if m.col <= line.len() {
        (
            TextModel {
                lines: m.lines.update(m.row, line.take(m.col - 1) + line.skip(m.col)),
                col: m.col - 1,
                ..m
            },
            true,
        )
    } else {
        (m, false)
    }
}

/// Whether an input breaks the line: Enter with any modifiers, Ctrl+M, or a
/// typed newline or carriage return.
pub open spec fn is_newline_input(t: TextInput) -> bool {
    ||| t.key == KeyCode::Enter
    ||| (t.key == KeyCode::Char('m') && t.ctrl && !t.alt)
    ||| (!t.ctrl && !t.alt && (t.key == KeyCode::Char('\n') || t.key == KeyCode::Char('\r')))
}

/// The cursor movements the editor binds to keys of its own.
pub enum CursorMotion {
    Forward,
    Back,
    Up,
    Down,
    Head,
    End,
}

/// The movement an input asks for: the arrows (no Control, no Alt) and their
/// Emacs keys Ctrl+F, Ctrl+B, Ctrl+P and Ctrl+N move by one character or
/// line; Home, Ctrl+A, Ctrl+Alt+Left and Ctrl+Alt+B go to the start of the
/// line; End, Ctrl+E, Ctrl+Alt+Right and Ctrl+Alt+F go to its end.
pub open spec fn motion_of(t: TextInput) -> Option<CursorMotion> {
    let plain = !t.ctrl && !t.alt;
    let ctrl_only = t.ctrl && !t.alt;
    let ctrl_alt = t.ctrl && t.alt;
    if (t.key == KeyCode::Right && plain) || (t.key == KeyCode::Char('f') && ctrl_only) {
        Some(CursorMotion::Forward)
    } else if (t.key == KeyCode::Left && plain) || (t.key == KeyCode::Char('b') && ctrl_only) {
        Some(CursorMotion::Back)
    } else if (t.key == KeyCode::Up && plain) || (t.key == KeyCode::Char('p') && ctrl_only) {
        Some(CursorMotion::Up)
    } else if (t.key == KeyCode::Down && plain) || (t.key == KeyCode::Char('n') && ctrl_only) {
        Some(CursorMotion::Down)
    } else if t.key == KeyCode::Home || (t.key == KeyCode::Char('a') && ctrl_only) || (ctrl_alt
        && (t.key == KeyCode::Left || t.key == KeyCode::Char('b'))) {
        Some(CursorMotion::Head)
    } else if t.key == KeyCode::End || (t.key == KeyCode::Char('e') && ctrl_only) || (ctrl_alt && (
    t.key == KeyCode::Right || t.key == KeyCode::Char('f'))) {
        Some(CursorMotion::End)
    } else {
        None
    }
}

/// Where a movement takes the cursor, if anywhere. Forward steps over a
/// character, or from the end of a line to the start of the next one; Back
/// steps back, or from the start of a line to the end of the one before;
/// Up and Down go to the same column of the line above or below, or to its
/// end when it is shorter; Head and End go to the start and the end of the
/// line. `None` where there is nowhere to go (past the first or last line).
pub open spec fn cursor_after(m: TextModel, mv: CursorMotion) -> Option<(int, int)> {
    let line = m.lines[m.row];
    match mv {
        CursorMotion::Forward => if m.col >= line.len() {
            if m.row + 1 < m.lines.len() {
                Some((m.row + 1, 0))
            } else {
                None
            }
        } else {
            Some((m.row, m.col + 1))
        },
        CursorMotion::Back => if m.col == 0 {
            if m.row == 0 {
                None
            } else {
                Some((m.row - 1, m.lines[m.row - 1].len() as int))
            }
        } else {
            Some((m.row, m.col - 1))
        },
        CursorMotion::Up => if m.row == 0 {
            None
        } else {
            Some((m.row - 1, clamp_col(m.lines[m.row - 1], m.col)))
        },
        CursorMotion::Down => if m.row + 1 < m.lines.len() {
            Some((m.row + 1, clamp_col(m.lines[m.row + 1], m.col)))
        } else {
            None
        },
        CursorMotion::Head => Some((m.row, 0)),
        CursorMotion::End => Some((m.row, line.len() as int)),
    }
}

/// The model after a movement: the text stays; where the cursor can go it
/// goes there, and a selection is then in progress exactly when Shift was
/// held (Shift starts one or extends it, a movement without Shift ends it).
pub open spec fn model_after_move(m: TextModel, mv: CursorMotion, shift: bool) -> TextModel {
    match cursor_after(m, mv) {
        Some(p) => TextModel { row: p.0, col: p.1, selecting: shift, ..m },
        None => m,
    }
}

/// The model after deleting the character after the cursor, and whether
/// anything was deleted: at the end of a line the next line is joined to it;
/// at the end of the last line nothing happens. (The cursor steps forward
/// and the character before it is deleted.)
pub open spec fn model_after_delete_next(m: TextModel) -> (TextModel, bool) {
    match cursor_after(m, CursorMotion::Forward) {
        Some(p) => model_after_backspace(TextModel { row: p.0, col: p.1, ..m }),
        None => (m, false),
    }
}

/// Whether every character of `s` is printable ASCII, one column wide.
pub open spec fn printable_ascii(s: Seq<char>) -> bool {
    forall|i: int| 0 <= i < s.len() ==> ' ' <= #[trigger] s[i] <= '~'
}

/// The model after Tab, and whether the text changed, where it is stated:
/// with a tab width of 0 nothing happens; with hard tabs a tab character goes
/// in; otherwise spaces go in up to the next multiple of the tab width,
/// stated where the text before the cursor is printable ASCII (one column
/// per character). `None` otherwise.
pub open spec fn tab_effect(m: TextModel) -> Option<(TextModel, bool)> {
    let line = m.lines[m.row];
    let k = clamp_col(line, m.col);
    if m.tab_len == 0 {
        Some((m, false))
    } else if m.hard_tab {
        Some((model_after_insert(m, seq!['\t']), true))
    } else if printable_ascii(line.take(k)) {
        let n = m.tab_len - k % (m.tab_len as int);
        Some((model_after_insert(m, Seq::new(n as nat, |i: int| ' ')), true))
    } else {
        None
    }
}

/// Whether the editor has no binding for an input: function keys, Escape and
/// keys it does not know, with any modifiers; Tab with Control or Alt;
/// Backspace and Delete with Control.
pub open spec fn is_unbound(t: TextInput) -> bool {
    ||| t.key is F
    ||| t.key == KeyCode::Esc
    ||| t.key == KeyCode::Other
    ||| (t.key == KeyCode::Tab && (t.ctrl || t.alt))
    ||| ((t.key == KeyCode::Backspace || t.key == KeyCode::Delete) && t.ctrl)
}

/// What an input does to the editor, where it is stated, while the cursor
/// is on a line: an input without a binding changes nothing; a movement moves
/// the cursor (whether or not a selection is in progress). While nothing is
/// selected, a newline splits the line, a plain character (no Control, no
/// Alt) goes in at the cursor, Tab indents as `tab_effect` says, Backspace
/// (or Ctrl+H) deletes the character before the cursor and Delete (or
/// Ctrl+D) the one after it. `None` for every other input and state.
pub open spec fn input_effect(m: TextModel, t: TextInput) -> Option<(TextModel, bool)> {
    let plain = !t.ctrl && !t.alt;
    if !(0 <= m.row < m.lines.len()) {
        None
    } else if is_unbound(t) {
        Some((m, false))
    } else if motion_of(t) is Some {
        Some((model_after_move(m, motion_of(t)->Some_0, t.shift), false))
    } else if m.selecting {
        None
    } else if is_newline_input(t) {
        Some((model_after_newline(m), true))
    } else if plain && t.key is Char {
        Some((model_after_insert(m, seq![t.key->Char_0]), true))
    } else if plain && t.key == KeyCode::Tab {
        tab_effect(m)
    } else if (t.key == KeyCode::Backspace && plain) || (t.key == KeyCode::Char('h') && t.ctrl
        && !t.alt) {
        Some(model_after_backspace(m))
    } else if (t.key == KeyCode::Delete && plain) || (t.key == KeyCode::Char('d') && t.ctrl
        && !t.alt) {
        Some(model_after_delete_next(m))
    } else {
        None
    }
}

/// A string without a newline is a single piece.
pub proof fn lemma_chunk_without_newline(s: Seq<char>)
    requires
        !s.contains('\n'),
    ensures
        chunk_of(s) == seq![strip_cr(s)],
{
    lemma_pieces_without_newline(s);
    assert(chunk_of(s) =~= seq![strip_cr(s)]);
}

proof fn lemma_pieces_without_newline(s: Seq<char>)
    requires
        !s.contains('\n'),
    ensures
        pieces(s) == seq![s],
    decreases s.len(),
{
    if s.len() > 0 {
        assert(!s.drop_last().contains('\n')) by {
            if s.drop_last().contains('\n') {
                let i = choose|i: int| 0 <= i < s.drop_last().len() && s.drop_last()[i] == '\n';
                assert(s[i] == '\n');
            }
        }
        lemma_pieces_without_newline(s.drop_last());
        assert(s[s.len() - 1] != '\n');
        assert(s.drop_last().push(s.last()) =~= s);
    } else {
        assert(s =~= Seq::<char>::empty());
    }
}

impl Editor {
    /// An editor with one empty line (`TextArea::default`).
    #[verifier::external_body]
    pub(crate) fn empty() -> (e: Editor)
        ensures
            editor_model(e) == fresh_model(Seq::empty()),
    {
        Editor { widget: TextArea::default() }
    }

    /// An editor holding `lines` (`TextArea::new`); no lines give one empty
    /// line.
    #[verifier::external_body]
    pub(crate) fn from_lines(lines: Vec<String>) -> (e: Editor)
        ensures
            editor_model(e) == fresh_model(lines.deep_view()),
    {
        Editor { widget: TextArea::new(lines) }
    }

    /// Sets the text shown while the editor is empty
    /// (`TextArea::set_placeholder_text`); only the placeholder changes.
    #[verifier::external_body]
    pub(crate) fn set_placeholder_text(&mut self, text: &str)
        ensures
            editor_model(*final(self)) == (TextModel { placeholder: text@, ..editor_model(*old(self)) }),
    {
        self.widget.set_placeholder_text(text);
    }

    /// The lines of the editor (`TextArea::lines`).
    #[verifier::external_body]
    pub(crate) fn lines(&self) -> (r: Vec<String>)
        ensures
            r.deep_view() == editor_model(*self).lines,
    {
        self.widget.lines().to_vec()
    }

    /// Inserts `s` at the cursor (`TextArea::insert_str`). Stated while
    /// nothing is selected: `s` is split at newlines, each piece loses one
    /// trailing `'\r'`, and the pieces go in at the cursor as
    /// `model_after_insert_str` says; the result says whether anything was
    /// inserted. With a selection, the selection is first deleted; that case
    /// is left unstated. The placeholder and the Tab settings never change,
    /// and the cursor stays on a line (the widget keeps that invariant).
    #[verifier::external_body]
    pub(crate) fn insert_str(&mut self, s: &str) -> (modified: bool)
        ensures
            ({
                let m = editor_model(*old(self));
                (!m.selecting && 0 <= m.row < m.lines.len()) ==> {
                    &&& modified == model_after_insert_str(m, s@).1
                    &&& editor_model(*final(self)) == model_after_insert_str(m, s@).0
                }
            }),
            editor_model(*final(self)).placeholder == editor_model(*old(self)).placeholder,
            editor_model(*final(self)).tab_len == editor_model(*old(self)).tab_len,
            editor_model(*final(self)).hard_tab == editor_model(*old(self)).hard_tab,
            cursor_in_text(editor_model(*final(self))),
    {
        self.widget.insert_str(s)
    }

    /// Hands a key to the editor's own key bindings (`TextArea::input`); the
    /// result says whether the text changed. Where `input_effect` gives an
    /// effect (unbound keys, cursor movement by character, line, line start
    /// and end; and, while nothing is selected, newlines, plain characters,
    /// Tab, Backspace and Delete) the editor changes as it says. The other
    /// bindings (movement by word, paragraph or page, deletion of words and
    /// line parts, undo and redo, yank, cut and copy, scrolling) and the edits
    /// made while a selection is in progress are left unstated. The
    /// placeholder and the Tab settings never change, and the cursor stays on
    /// a line (the widget keeps that invariant and checks it after each
    /// input).
    #[verifier::external_body]
    pub(crate) fn input(&mut self, t: TextInput) -> (modified: bool)
        ensures
            input_effect(editor_model(*old(self)), t) matches Some(e) ==> {
                &&& editor_model(*final(self)) == e.0
                &&& modified == e.1
            },
            editor_model(*final(self)).placeholder == editor_model(*old(self)).placeholder,
            editor_model(*final(self)).tab_len == editor_model(*old(self)).tab_len,
            editor_model(*final(self)).hard_tab == editor_model(*old(self)).hard_tab,
            cursor_in_text(editor_model(*final(self))),
    {
        let key = match t.key {
            KeyCode::Char(c) => Key::Char(c), KeyCode::F(n) => Key::F(n),
            KeyCode::Backspace => Key::Backspace, KeyCode::Enter => Key::Enter,
            KeyCode::Left => Key::Left, KeyCode::Right => Key::Right,
            KeyCode::Up => Key::Up, KeyCode::Down => Key::Down,
            KeyCode::Tab => Key::Tab, KeyCode::Delete => Key::Delete,
            KeyCode::Home => Key::Home, KeyCode::End => Key::End,
            KeyCode::PageUp => Key::PageUp, KeyCode::PageDown => Key::PageDown,
            KeyCode::Esc => Key::Esc, KeyCode::Other => Key::Null,
        };
        self.widget.input(Input { key, ctrl: t.ctrl, alt: t.alt, shift: t.shift })
    }
}

} // verus!
