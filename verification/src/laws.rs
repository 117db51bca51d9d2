//! Properties of the editor that span several steps or hold of every state.
use vstd::prelude::*;
use crate::app::{
    Action, AppView, HookStatus, InputMode, LoopEvent, LoopOutcome, LoopStep, action_next,
    conventional_prefix, hook_event_next, is_abort_key, is_hook_success, is_run, key_step,
    loop_step, message_of, start_view, wf, pending_iff_waiting, initial_view, last_index,
    COMMIT_TYPE_COUNT,
};
use crate::hook::HookEvent;
use crate::ui::{Color, colored, hook_panel_spec, output_window, text};
use crate::key::{KeyCode, KeyEvent, MOD_ALT, MOD_CONTROL, MOD_NONE, MOD_SHIFT, text_input_spec};
use crate::text::{decimal, is_ws, join, trim, trim_end, trim_start};
use crate::textarea::{TextModel, input_effect, model_after_insert, model_after_move, motion_of};

verus! {

/// Submitting a non-empty message while the hook is still running makes the
/// editor wait, and the hook's successful end then commits.
pub proof fn law_submit_while_running_commits_on_success(
    v: AppView,
    has_hook: bool,
    elapsed_nanos: u64,
)
    requires
        message_of(v).len() > 0,
        v.hook_status is Running || v.hook_status is Waiting,
    ensures
        ({
            let (w, step) = action_next(v, Action::Submit, has_hook);
            &&& step == LoopStep::Tick
            &&& w.hook_status is Waiting
            &&& w.pending_submit
            &&& hook_event_next(w, HookEvent::Finished { success: true, elapsed_nanos }).1
        }),
{
}

/// Hook output arriving while a commit is pending keeps it pending.
pub proof fn law_output_keeps_pending_commit(v: AppView, line: String)
    ensures
        ({
            let (w, commit_now) = hook_event_next(v, HookEvent::Output(line));
            &&& w.pending_submit == v.pending_submit
            &&& w.hook_status == v.hook_status
            &&& !commit_now
        }),
{
}

/// A commit is only made when the message is not empty and the hook passed
/// or there is none; a hook event only commits when the hook succeeded and a
/// commit was pending.
pub proof fn law_commit_needs_passing_hook(v: AppView, a: Action, has_hook: bool, e: HookEvent)
    ensures
        action_next(v, a, has_hook).1 == LoopStep::Commit ==> {
            &&& a == Action::Submit
            &&& message_of(v).len() > 0
            &&& (v.hook_status is Passed || v.hook_status is NoHook)
        },
        hook_event_next(v, e).1 ==> {
            &&& e matches HookEvent::Finished { success, .. } && success
            &&& v.pending_submit
        },
{
}

/// A failed hook blocks the commit: submitting changes nothing and goes on.
pub proof fn law_failed_hook_blocks_commit(v: AppView, has_hook: bool)
    requires
        v.hook_status is Failed,
    ensures
        action_next(v, Action::Submit, has_hook) == (v, LoopStep::SkipTick),
{
}

/// Without a pre-commit hook, submitting a non-empty message commits at once.
pub proof fn law_no_hook_commits_directly(v: AppView, has_hook: bool)
    requires
        v.hook_status is NoHook,
        message_of(v).len() > 0,
    ensures
        action_next(v, Action::Submit, has_hook) == (v, LoopStep::Commit),
{
}

/// Retrying restarts the hook with an empty output view that follows new
/// output.
pub proof fn law_retry_restarts_hook(v: AppView)
    ensures
        ({
            let (w, step) = action_next(v, Action::Retry, true);
            &&& step == LoopStep::RestartHook
            &&& w.hook_status is Running
            &&& w.hook_output.len() == 0
            &&& w.hook_scroll == 0
            &&& w.hook_auto_scroll
        }),
{
}

/// Esc and Ctrl+C abort in every mode and change nothing.
pub proof fn law_abort_keys(v: AppView, k: KeyEvent, w: AppView, r: Action)
    requires
        is_abort_key(k),
        key_step(v, k, w, r),
    ensures
        r == Action::Abort,
        w == v,
{
}

/// While editing the message, Ctrl+S and Ctrl+Enter submit it.
pub proof fn law_submit_keys(v: AppView, k: KeyEvent, w: AppView, r: Action)
    requires
        v.input_mode == InputMode::EditMessage,
        k.modifiers == MOD_CONTROL,
        k.code == KeyCode::Char('s') || k.code == KeyCode::Enter,
        key_step(v, k, w, r),
    ensures
        r == Action::Submit,
        w == v,
{
}

/// Confirming the scope puts the conventional prefix (`type: ` or
/// `type(scope): `) at the very start of the message and moves on to the
/// message.
pub proof fn law_conventional_prefix_starts_message(v: AppView, k: KeyEvent, w: AppView, r: Action)
    requires
        wf(v),
        v.input_mode == InputMode::EnterScope,
        k.code == KeyCode::Enter,
        !is_abort_key(k),
        !v.scope_input.contains('\n'),
        key_step(v, k, w, r),
    ensures
        w.input_mode == InputMode::EditMessage,
        w.textarea.lines[0] == conventional_prefix(v.type_selection, v.scope_input)
            + v.textarea.lines[0],
        w.textarea.lines.len() == v.textarea.lines.len(),
        w.textarea.lines.skip(1) == v.textarea.lines.skip(1),
{
    let p = conventional_prefix(v.type_selection, v.scope_input);
    assert(p.last() == ' ');
    let n = crate::app::commit_kind_name(v.type_selection);
    crate::app::lemma_commit_kind_name_plain(v.type_selection);
    assert(!p.contains('\n')) by {
        if p.contains('\n') {
            let i = choose|i: int| 0 <= i < p.len() && p[i] == '\n';
            if i < n.len() {
                assert(p[i] == n[i]);
                assert(n.contains('\n'));
            } else if v.scope_input.len() > 0 && n.len() < i < n.len() + 1 + v.scope_input.len() {
                assert(p[i] == v.scope_input[i - n.len() - 1]);
                assert(v.scope_input.contains('\n'));
            }
        }
    }
    assert(crate::text::strip_cr(p) == p);
    crate::textarea::lemma_chunk_without_newline(p);
    assert(p.len() > 0);
    assert(v.textarea.lines[0].take(0) + p + v.textarea.lines[0].skip(0) =~= p + v.textarea.lines[0]);
    assert(w.textarea.lines.skip(1) =~= v.textarea.lines.skip(1));
}

/// With auto-scroll on, new hook output scrolls the view to the new last
/// line.
pub proof fn law_auto_scroll_follows_output(v: AppView, line: String)
    requires
        v.hook_auto_scroll,
    ensures
        ({
            let w = hook_event_next(v, HookEvent::Output(line)).0;
            &&& w.hook_output == v.hook_output.push(line@)
            &&& w.hook_scroll == w.hook_output.len() - 1
        }),
{
}

/// The hook output view shows the lines ending at the scroll position, as
/// many as fit: never more than `max` lines, and all of them when they fit.
pub proof fn law_output_window_ends_at_scroll(len: int, scroll: int, max: int)
    requires
        0 <= scroll < len,
        max > 0,
    ensures
        ({
            let (start, end) = output_window(len, scroll, max);
            &&& end == scroll + 1
            &&& 0 <= start <= end
            &&& end - start <= max
            &&& (end <= max ==> start == 0)
        }),
{
}

/// A plain character key while editing the message (no modifier but
/// possibly Shift, pressed rather than released, not a line break) goes into
/// the message at the cursor, when nothing is selected; nothing else
/// changes.
pub proof fn law_typed_character_enters_message(v: AppView, k: KeyEvent, w: AppView, r: Action, c: char)
    requires
        v.input_mode == InputMode::EditMessage,
        k.code == KeyCode::Char(c),
        k.modifiers == MOD_NONE || k.modifiers == MOD_SHIFT,
        !k.release,
        c != '\n' && c != '\r',
        !v.textarea.selecting,
        0 <= v.textarea.row < v.textarea.lines.len(),
        key_step(v, k, w, r),
    ensures
        r == Action::Continue,
        w == (AppView { textarea: crate::textarea::model_after_insert(v.textarea, seq![c]), ..v }),
{
    assert(MOD_NONE & MOD_CONTROL != MOD_CONTROL && MOD_NONE & MOD_ALT != MOD_ALT) by (bit_vector);
    assert(MOD_SHIFT & MOD_CONTROL != MOD_CONTROL && MOD_SHIFT & MOD_ALT != MOD_ALT) by (bit_vector);
}

/// Typing a plain character at the end of a one-line message appends it:
/// the message stays one line with the cursor at its end.
pub proof fn law_typing_appends_to_message(
    v: AppView,
    k: KeyEvent,
    w: AppView,
    r: Action,
    c: char,
    s: Seq<char>,
)
    requires
        v.input_mode == InputMode::EditMessage,
        k.code == KeyCode::Char(c),
        k.modifiers == MOD_NONE || k.modifiers == MOD_SHIFT,
        !k.release,
        c != '\n' && c != '\r',
        v.textarea.lines == seq![s],
        v.textarea.row == 0,
        v.textarea.col == s.len(),
        !v.textarea.selecting,
        key_step(v, k, w, r),
    ensures
        r == Action::Continue,
        w.textarea.lines == seq![s.push(c)],
        w.textarea.row == 0,
        w.textarea.col == s.len() + 1,
        !w.textarea.selecting,
        message_of(w) == trim(s.push(c)),
{
    law_typed_character_enters_message(v, k, w, r, c);
    assert(s.take(s.len() as int) + seq![c] + s.skip(s.len() as int) =~= s.push(c));
    assert(w.textarea.lines =~= seq![s.push(c)]);
    law_one_line_message(w, s.push(c));
}

/// The message of a one-line editor is that line, trimmed.
pub proof fn law_one_line_message(v: AppView, s: Seq<char>)
    requires
        v.textarea.lines == seq![s],
    ensures
        message_of(v) == trim(s),
{
    assert(join(seq![s], seq!['\n']) == s);
}

/// A fresh editor without a template is one empty line with the cursor at
/// its start and the placeholder "Enter commit message...".
pub proof fn law_fresh_editor(conventional: bool, extra: Seq<Seq<char>>, staged: Seq<Seq<char>>)
    ensures
        ({
            let v = initial_view(conventional, extra, None, staged);
            &&& v.textarea == (TextModel {
                lines: seq![Seq::<char>::empty()],
                row: 0,
                col: 0,
                selecting: false,
                placeholder: "Enter commit message..."@,
                tab_len: 4,
                hard_tab: false,
            })
            &&& message_of(v).len() == 0
        }),
{
    let v = initial_view(conventional, extra, None, staged);
    law_one_line_message(v, Seq::empty());
    assert(trim(Seq::<char>::empty()) =~= Seq::<char>::empty()) by {
        reveal_with_fuel(crate::text::trim_start, 1);
        reveal_with_fuel(crate::text::trim_end, 1);
    }
}

/// Between events a commit is pending exactly while the editor waits for
/// the hook: so it is at the start, after every key and what it asks for,
/// and after every hook event that does not commit.
pub proof fn law_pending_exactly_when_waiting(
    conventional: bool,
    extra: Seq<Seq<char>>,
    template: Option<Seq<char>>,
    staged: Seq<Seq<char>>,
    v: AppView,
    k: KeyEvent,
    w: AppView,
    r: Action,
    has_hook: bool,
    e: HookEvent,
)
    ensures
        pending_iff_waiting(initial_view(conventional, extra, template, staged)),
        pending_iff_waiting(v) && key_step(v, k, w, r) ==> pending_iff_waiting(w)
            && pending_iff_waiting(action_next(w, r, has_hook).0),
        pending_iff_waiting(v) && !hook_event_next(v, e).1 ==> pending_iff_waiting(
            hook_event_next(v, e).0,
        ),
{
}

/// Every key keeps the hook view's scroll position on an output line.
/// Alt+Down while editing moves it down by one line up to the last, and
/// follows new output again once it reaches the last line.
pub proof fn law_hook_scroll_stays_in_bounds(v: AppView, k: KeyEvent, w: AppView, r: Action)
    requires
        0 <= v.hook_scroll <= last_index(v.hook_output.len() as int),
        key_step(v, k, w, r),
    ensures
        0 <= w.hook_scroll <= last_index(w.hook_output.len() as int),
        w.hook_output == v.hook_output,
        (v.input_mode == InputMode::EditMessage && k.code == KeyCode::Down && k.modifiers == MOD_ALT)
            ==> {
            let m = last_index(v.hook_output.len() as int);
            &&& w.hook_scroll == if v.hook_scroll + 1 < m { v.hook_scroll + 1 } else { m }
            &&& w.hook_auto_scroll == if w.hook_scroll == m { true } else { v.hook_auto_scroll }
        },
{
}

/// While choosing the commit type the selection stays in range: Up and Down
/// move it within the list, Enter goes on to the scope with the selection
/// kept, other keys change nothing, and no key but an abort key asks for
/// anything.
pub proof fn law_type_selection_stays_in_range(v: AppView, k: KeyEvent, w: AppView, r: Action)
    requires
        v.input_mode == InputMode::SelectType,
        0 <= v.type_selection < COMMIT_TYPE_COUNT,
        key_step(v, k, w, r),
    ensures
        0 <= w.type_selection < COMMIT_TYPE_COUNT,
        !is_abort_key(k) ==> r == Action::Continue,
        !is_abort_key(k) && k.code == KeyCode::Enter ==> w == (AppView {
            input_mode: InputMode::EnterScope,
            ..v
        }),
        !is_abort_key(k) && k.code != KeyCode::Enter && k.code != KeyCode::Up && k.code
            != KeyCode::Down ==> w == v,
{
}

/// While editing the message, the arrow keys, Home and End (pressed, with no
/// modifier or with Shift only) move the editor's cursor as the editor's own
/// bindings say: the text stays, a selection is in progress afterwards
/// exactly when Shift was held, and nothing else changes.
pub proof fn law_cursor_keys_move_cursor(v: AppView, k: KeyEvent, w: AppView, r: Action)
    requires
        wf(v),
        v.input_mode == InputMode::EditMessage,
        k.code == KeyCode::Left || k.code == KeyCode::Right || k.code == KeyCode::Up || k.code
            == KeyCode::Down || k.code == KeyCode::Home || k.code == KeyCode::End,
        k.modifiers == MOD_NONE || k.modifiers == MOD_SHIFT,
        !k.release,
        key_step(v, k, w, r),
    ensures
        r == Action::Continue,
        motion_of(text_input_spec(k)) is Some,
        w == (AppView {
            textarea: model_after_move(
                v.textarea,
                motion_of(text_input_spec(k))->Some_0,
                k.modifiers == MOD_SHIFT,
            ),
            ..v
        }),
        w.textarea.lines == v.textarea.lines,
{
    assert(MOD_NONE & MOD_CONTROL != MOD_CONTROL && MOD_NONE & MOD_ALT != MOD_ALT && MOD_NONE
        & MOD_SHIFT != MOD_SHIFT) by (bit_vector);
    assert(MOD_SHIFT & MOD_CONTROL != MOD_CONTROL && MOD_SHIFT & MOD_ALT != MOD_ALT && MOD_SHIFT
        & MOD_SHIFT == MOD_SHIFT) by (bit_vector);
}

/// Whether the hook has stood passed at every state since a successful end
/// of it arrived, up to `states[n]`.
pub open spec fn passed_since_success(events: Seq<LoopEvent>, states: Seq<AppView>, n: int) -> bool {
    exists|j: int|
        0 <= j < n && is_hook_success(#[trigger] events[j]) && forall|l: int|
            j < l <= n ==> (#[trigger] states[l]).hook_status is Passed
}

/// What one turn of the loop keeps: the commit options, the absence of a
/// hook (no turn makes one), its presence (no turn forgets it), and a passed
/// hook stays passed unless the turn itself is the hook's successful end.
proof fn lemma_step_keeps(
    v: AppView,
    ev: LoopEvent,
    has_hook: bool,
    mid: AppView,
    act: Action,
    w: AppView,
    out: LoopOutcome,
)
    requires
        loop_step(v, ev, has_hook, mid, act, w, out),
        !has_hook ==> !(ev is Hook),
    ensures
        w.extra_args == v.extra_args,
        (v.hook_status is NoHook <==> !has_hook) ==> (w.hook_status is NoHook <==> !has_hook),
        w.hook_status is Passed && !is_hook_success(ev) ==> v.hook_status is Passed,
{
}

/// Along a run from the start, every state keeps the commit options, has
/// `NoHook` exactly when there is no hook, and shows a passed hook only
/// after a successful end of it arrived and no restart came since.
proof fn lemma_run_states(
    conventional: bool,
    extra: Seq<Seq<char>>,
    template: Option<Seq<char>>,
    staged: Seq<Seq<char>>,
    has_hook: bool,
    events: Seq<LoopEvent>,
    states: Seq<AppView>,
    mids: Seq<AppView>,
    acts: Seq<Action>,
    outs: Seq<LoopOutcome>,
    n: int,
)
    requires
        is_run(has_hook, events, states, mids, acts, outs),
        states[0] == start_view(conventional, extra, template, staged, has_hook),
        0 <= n < states.len(),
    ensures
        states[n].extra_args == extra,
        states[n].hook_status is NoHook <==> !has_hook,
        states[n].hook_status is Passed ==> passed_since_success(events, states, n),
    decreases n,
{
    if n > 0 {
        let i = n - 1;
        lemma_run_states(conventional, extra, template, staged, has_hook, events, states, mids, acts, outs, i);
        assert(loop_step(states[i], events[i], has_hook, mids[i], acts[i], states[i + 1], outs[i]));
        assert(!has_hook ==> !(events[i] is Hook));
        lemma_step_keeps(states[i], events[i], has_hook, mids[i], acts[i], states[n], outs[i]);
        if states[n].hook_status is Passed {
            if is_hook_success(events[i]) {
                assert(forall|l: int| i < l <= n ==> (#[trigger] states[l]).hook_status is Passed);
                assert(passed_since_success(events, states, n));
            } else {
                let j = choose|j: int|
                    0 <= j < i && is_hook_success(#[trigger] events[j]) && forall|l: int|
                        j < l <= i ==> (#[trigger] states[l]).hook_status is Passed;
                assert(forall|l: int| j < l <= n ==> (#[trigger] states[l]).hook_status is Passed) by {
                    assert forall|l: int| j < l <= n implies (#[trigger] states[l]).hook_status is Passed by {
                        if l < n {
                            assert(j < l <= i);
                        }
                    }
                }
                assert(passed_since_success(events, states, n));
            }
        }
    }
}

/// A whole session, whatever keys and hook events arrive in whatever order:
/// the loop commits at most once, and then stops; it commits only a
/// message that is not empty, with the options it started with, and only
/// when the hook passed (after its successful end arrived, with no restart
/// since) or there is no hook; `NoHook` stands exactly when there is no
/// hook, in every state of the run.
pub proof fn law_run_commits_once_after_passing_hook(
    conventional: bool,
    extra: Seq<Seq<char>>,
    template: Option<Seq<char>>,
    staged: Seq<Seq<char>>,
    has_hook: bool,
    events: Seq<LoopEvent>,
    states: Seq<AppView>,
    mids: Seq<AppView>,
    acts: Seq<Action>,
    outs: Seq<LoopOutcome>,
)
    requires
        is_run(has_hook, events, states, mids, acts, outs),
        states[0] == start_view(conventional, extra, template, staged, has_hook),
    ensures
        forall|i: int|
            0 <= i < states.len() ==> ((#[trigger] states[i]).hook_status is NoHook <==> !has_hook)
                && states[i].extra_args == extra,
        forall|i: int|
            0 <= i < outs.len() && #[trigger] outs[i] == LoopOutcome::Commit ==> {
                let w = states[i + 1];
                &&& i == outs.len() - 1
                &&& message_of(w).len() > 0
                &&& w.extra_args == extra
                &&& if has_hook {
                    &&& w.hook_status is Passed
                    &&& passed_since_success(events, states, i + 1)
                } else {
                    w.hook_status is NoHook
                }
            },
{
    assert forall|i: int| 0 <= i < states.len() implies ((#[trigger] states[i]).hook_status is NoHook
        <==> !has_hook) && states[i].extra_args == extra by {
        lemma_run_states(conventional, extra, template, staged, has_hook, events, states, mids, acts, outs, i);
    }
    assert forall|i: int| 0 <= i < outs.len() && #[trigger] outs[i] == LoopOutcome::Commit implies {
        let w = states[i + 1];
        &&& i == outs.len() - 1
        &&& message_of(w).len() > 0
        &&& w.extra_args == extra
        &&& if has_hook {
            &&& w.hook_status is Passed
            &&& passed_since_success(events, states, i + 1)
        } else {
            w.hook_status is NoHook
        }
    } by {
        assert(loop_step(states[i], events[i], has_hook, mids[i], acts[i], states[i + 1], outs[i]));
        lemma_run_states(conventional, extra, template, staged, has_hook, events, states, mids, acts, outs, i);
        lemma_run_states(conventional, extra, template, staged, has_hook, events, states, mids, acts, outs, i + 1);
        if i < outs.len() - 1 {
            assert(outs[i] == LoopOutcome::GoOn);
        }
    }
}

/// An empty message is never submitted: whatever the hook is doing,
/// submitting a message that is empty once trimmed changes nothing, neither
/// commits nor waits for the hook, and the frame is not counted.
pub proof fn law_empty_message_never_submitted(v: AppView, has_hook: bool)
    requires
        message_of(v).len() == 0,
    ensures
        action_next(v, Action::Submit, has_hook) == (v, LoopStep::SkipTick),
{
}

/// While choosing the commit type, Up moves the highlight one entry up and
/// Down one entry down, each stopping at the end of the list; nothing else
/// changes and the key asks for nothing.
pub proof fn law_type_selection_moves_by_one(v: AppView, k: KeyEvent, w: AppView, r: Action)
    requires
        v.input_mode == InputMode::SelectType,
        0 <= v.type_selection < COMMIT_TYPE_COUNT,
        !is_abort_key(k),
        k.code == KeyCode::Up || k.code == KeyCode::Down,
        key_step(v, k, w, r),
    ensures
        r == Action::Continue,
        k.code == KeyCode::Up ==> w == (AppView {
            type_selection: if v.type_selection > 0 {
                v.type_selection - 1
            } else {
                0
            },
            ..v
        }),
        k.code == KeyCode::Down ==> w == (AppView {
            type_selection: if v.type_selection + 1 < COMMIT_TYPE_COUNT {
                v.type_selection + 1
            } else {
                v.type_selection
            },
            ..v
        }),
{
}

/// Joined lines start with the first line's first character.
proof fn lemma_join_first(ls: Seq<Seq<char>>, sep: Seq<char>)
    requires
        ls.len() >= 1,
        ls[0].len() > 0,
    ensures
        join(ls, sep).len() > 0,
        join(ls, sep)[0] == ls[0][0],
    decreases ls.len(),
{
    if ls.len() > 1 {
        lemma_join_first(ls.drop_last(), sep);
    }
}

/// Joined lines end with the last line's last character.
proof fn lemma_join_last(ls: Seq<Seq<char>>, sep: Seq<char>)
    requires
        ls.len() >= 1,
        ls.last().len() > 0,
    ensures
        join(ls, sep).len() > 0,
        join(ls, sep).last() == ls.last().last(),
{
}

/// The commit message is the editor's text as written: when the text does
/// not start or end with whitespace, the message is exactly the lines joined
/// by newlines, every line (indentation and trailing spaces of inner lines
/// included) kept as it is.
pub proof fn law_message_keeps_lines_as_written(v: AppView)
    requires
        v.textarea.lines.len() >= 1,
        v.textarea.lines[0].len() > 0,
        !is_ws(v.textarea.lines[0][0]),
        v.textarea.lines.last().len() > 0,
        !is_ws(v.textarea.lines.last().last()),
    ensures
        message_of(v) == join(v.textarea.lines, seq!['\n']),
{
    let s = join(v.textarea.lines, seq!['\n']);
    lemma_join_first(v.textarea.lines, seq!['\n']);
    lemma_join_last(v.textarea.lines, seq!['\n']);
    assert(trim_start(s) == s);
    assert(trim_end(s) == s);
}

/// While the hook runs or after it failed, the panel's output ends at the
/// scroll position: with a line `scroll` of the output and room for `max > 0`
/// rows, the rows shown are the lines up to and including `scroll` (as many
/// as fit), preceded by an "↑ N more" row when earlier lines are hidden and
/// followed by a "↓ N more" row counting the lines after `scroll` when there
/// are any.
pub proof fn law_hook_panel_output_ends_at_scroll(v: AppView, height: int)
    requires
        v.hook_status is Running || v.hook_status is Failed,
        0 <= v.hook_scroll < v.hook_output.len(),
        height > 3,
    ensures
        ({
            let ls = hook_panel_spec(v, height).lines;
            let max = height - 3;
            let len = v.hook_output.len() as int;
            let scroll = v.hook_scroll;
            let shown = if scroll + 1 < max { scroll + 1 } else { max };
            let c = if v.hook_status is Running { Color::DarkGray } else { Color::Red };
            let hidden_above = scroll + 1 - shown;
            let first = if hidden_above > 0 { 2int } else { 1int };
            &&& ls.len() == first + shown + (if scroll < len - 1 { 1int } else { 0int })
            &&& forall|k: int|
                0 <= k < shown ==> #[trigger] ls[first + k] == seq![
                    text("  "@ + v.hook_output[hidden_above + k], colored(c)),
                ]
            &&& hidden_above > 0 ==> ls[1] == seq![
                text("  ↑ "@ + decimal(hidden_above as nat) + " more"@, colored(Color::DarkGray)),
            ]
            &&& scroll < len - 1 ==> ls.last() == seq![
                text("  ↓ "@ + decimal((len - 1 - scroll) as nat) + " more"@, colored(Color::DarkGray)),
            ]
        }),
{
}

/// The editor gets each pressed key as it was pressed: the same key, with
/// Control, Alt and Shift held exactly when their bits are set; a release
/// reaches it as no key at all. So a character typed with Alt held is never
/// inserted into the message.
pub proof fn law_editor_gets_key_with_its_modifiers(k: KeyEvent, m: TextModel, c: char)
    ensures
        !k.release ==> {
            let t = text_input_spec(k);
            &&& t.key == k.code
            &&& t.ctrl == (k.modifiers & 2 != 0)
            &&& t.alt == (k.modifiers & 4 != 0)
            &&& t.shift == (k.modifiers & 1 != 0)
        },
        k.release ==> text_input_spec(k).key == KeyCode::Other,
        (!k.release && k.code == KeyCode::Char(c) && k.modifiers & 4 != 0) ==> input_effect(
            m,
            text_input_spec(k),
        ) != Some((model_after_insert(m, seq![c]), true)),
{
    let b = k.modifiers;
    assert((b & MOD_CONTROL == MOD_CONTROL) == (b & 2 != 0)) by (bit_vector)
        requires MOD_CONTROL == 2u8;
    assert((b & MOD_ALT == MOD_ALT) == (b & 4 != 0)) by (bit_vector)
        requires MOD_ALT == 4u8;
    assert((b & MOD_SHIFT == MOD_SHIFT) == (b & 1 != 0)) by (bit_vector)
        requires MOD_SHIFT == 1u8;
}

} // verus!
