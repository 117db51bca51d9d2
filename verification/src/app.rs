//! The editor's state and how it reacts to keys, hook events and the user's
//! requests: the decisions of the event loop, one step at a time.
use vstd::prelude::*;
use crate::hook::HookEvent;
use crate::key::{KeyCode, KeyEvent, MOD_ALT, MOD_CONTROL, MOD_NONE, text_input_spec};
use crate::text::{join, join_strings, pop_char, push_char, push_str, split_lines, str_eq, trim, trim_str, lines};
use crate::textarea::{
    Editor, TextModel, cursor_in_text, editor_model, fresh_model, input_effect, model_after_insert_str,
};

verus! {

// ---------------------------------------------------------------------------
// Conventional commit types
// ---------------------------------------------------------------------------

/// How many conventional commit types the selector offers.
pub const COMMIT_TYPE_COUNT: usize = 10;

/// The name of conventional commit type `i`.
pub open spec fn commit_kind_name(i: int) -> Seq<char> {
    if i == 0 {
        "feat"@
    } else if i == 1 {
        "fix"@
    } else if i == 2 {
        "chore"@
    } else if i == 3 {
        "refactor"@
    } else if i == 4 {
        "docs"@
    } else if i == 5 {
        "test"@
    } else if i == 6 {
        "style"@
    } else if i == 7 {
        "ci"@
    } else if i == 8 {
        "perf"@
    } else {
        "build"@
    }
}

/// The description of conventional commit type `i`.
pub open spec fn commit_kind_desc(i: int) -> Seq<char> {
    if i == 0 {
        "A new feature"@
    } else if i == 1 {
        "A bug fix"@
    } else if i == 2 {
        "Maintenance tasks"@
    } else if i == 3 {
        "Code restructuring"@
    } else if i == 4 {
        "Documentation changes"@
    } else if i == 5 {
        "Adding or updating tests"@
    } else if i == 6 {
        "Formatting, whitespace"@
    } else if i == 7 {
        "CI/CD changes"@
    } else if i == 8 {
        "Performance improvements"@
    } else {
        "Build system changes"@
    }
}

/// No commit type name holds a newline.
pub proof fn lemma_commit_kind_name_plain(i: int)
    ensures
        !commit_kind_name(i).contains('\n'),
{
    reveal_strlit("feat");
    reveal_strlit("fix");
    reveal_strlit("chore");
    reveal_strlit("refactor");
    reveal_strlit("docs");
    reveal_strlit("test");
    reveal_strlit("style");
    reveal_strlit("ci");
    reveal_strlit("perf");
    reveal_strlit("build");
}

/// Conventional commit type `i`: its name and description.
pub fn commit_type(i: usize) -> (r: (&'static str, &'static str))
    requires
        i < COMMIT_TYPE_COUNT,
    ensures
        r.0@ == commit_kind_name(i as int),
        r.1@ == commit_kind_desc(i as int),
{
    if i == 0 {
        ("feat", "A new feature")
    } else if i == 1 {
        ("fix", "A bug fix")
    } else if i == 2 {
        ("chore", "Maintenance tasks")
    } else if i == 3 {
        ("refactor", "Code restructuring")
    } else if i == 4 {
        ("docs", "Documentation changes")
    } else if i == 5 {
        ("test", "Adding or updating tests")
    } else if i == 6 {
        ("style", "Formatting, whitespace")
    } else if i == 7 {
        ("ci", "CI/CD changes")
    } else if i == 8 {
        ("perf", "Performance improvements")
    } else {
        ("build", "Build system changes")
    }
}

// ---------------------------------------------------------------------------
// State
// ---------------------------------------------------------------------------

/// Which input the editor is collecting.
#[derive(Clone, Copy, Debug, PartialEq, Eq)]
pub enum InputMode {
    SelectType,
    EnterScope,
    EditMessage,
}

/// Where the pre-commit hook stands. Elapsed times are in nanoseconds.
#[derive(Clone, Copy, Debug, PartialEq, Eq)]
pub enum HookStatus {
    NoHook,
    Running,
    Passed(u64),
    Failed(u64),
    /// The user asked to commit while the hook was still running.
    Waiting,
}

/// How the commit is to be made.
#[derive(Debug)]
pub struct CommitOpts {
    /// Ask for a conventional commit type and scope first.
    pub conventional: bool,
    /// Arguments handed on to `git commit` (such as `--amend`, `--signoff`).
    pub extra_args: Vec<String>,
}

/// Whether `args` holds `--amend` or `--allow-empty`.
pub open spec fn allows_no_staged_changes(args: Seq<Seq<char>>) -> bool {
    exists|i: int| 0 <= i < args.len() && (args[i] == "--amend"@ || args[i] == "--allow-empty"@)
}

impl CommitOpts {
    /// Whether the commit may go ahead without staged changes: amending, or
    /// an explicitly empty commit.
    pub fn skip_staged_check(&self) -> (r: bool)
        ensures
            r == allows_no_staged_changes(self.extra_args.deep_view()),
    {
        let n = self.extra_args.len();
        let mut i: usize = 0;
        while i < n
            invariant
                i <= n == self.extra_args@.len(),
                forall|k: int|
                    0 <= k < i ==> !(#[trigger] self.extra_args.deep_view()[k] == "--amend"@
                        || self.extra_args.deep_view()[k] == "--allow-empty"@),
            decreases n - i,
        {
            let a = self.extra_args[i].as_str();
            if str_eq(a, "--amend") || str_eq(a, "--allow-empty") {
                assert(self.extra_args.deep_view()[i as int] == a@);
                return true;
            }
            i = i + 1;
        }
        false
    }
}

/// The editor's whole state.
pub struct App {
    /// The commit message being written.
    pub textarea: Editor,
    pub hook_status: HookStatus,
    /// The hook's output so far, one entry per line.
    pub hook_output: Vec<String>,
    /// Frames drawn so far (drives the spinner).
    pub tick_count: usize,
    /// Set when the user asked to commit while the hook was still running.
    pub pending_submit: bool,
    pub commit_opts: CommitOpts,
    /// `git diff --cached --name-status` lines.
    pub staged_files: Vec<String>,
    /// Index of the last hook output line on screen.
    pub hook_scroll: usize,
    /// Whether the hook view follows new output.
    pub hook_auto_scroll: bool,
    pub input_mode: InputMode,
    /// Index of the highlighted conventional commit type.
    pub type_selection: usize,
    pub scope_input: String,
}

/// The state of an `App` as plain values.
pub struct AppView {
    pub textarea: TextModel,
    pub hook_status: HookStatus,
    pub hook_output: Seq<Seq<char>>,
    pub tick_count: int,
    pub pending_submit: bool,
    pub conventional: bool,
    pub extra_args: Seq<Seq<char>>,
    pub staged_files: Seq<Seq<char>>,
    pub hook_scroll: int,
    pub hook_auto_scroll: bool,
    pub input_mode: InputMode,
    pub type_selection: int,
    pub scope_input: Seq<char>,
}

impl View for App {
    type V = AppView;

    open spec fn view(&self) -> AppView {
        AppView {
            textarea: editor_model(self.textarea),
            hook_status: self.hook_status,
            hook_output: self.hook_output.deep_view(),
            tick_count: self.tick_count as int,
            pending_submit: self.pending_submit,
            conventional: self.commit_opts.conventional,
            extra_args: self.commit_opts.extra_args.deep_view(),
            staged_files: self.staged_files.deep_view(),
            hook_scroll: self.hook_scroll as int,
            hook_auto_scroll: self.hook_auto_scroll,
            input_mode: self.input_mode,
            type_selection: self.type_selection as int,
            scope_input: self.scope_input@,
        }
    }
}

/// What a key asks of the event loop.
#[derive(Clone, Copy, Debug, PartialEq, Eq)]
pub enum Action {
    Continue,
    Abort,
    Submit,
    Retry,
}

/// What the event loop does after an action: go on to the next frame
/// (counting it), go on without counting the frame, stop without committing,
/// commit now, or start the hook again (and then go on to the next frame).
#[derive(Clone, Copy, Debug, PartialEq, Eq)]
pub enum LoopStep {
    Tick,
    SkipTick,
    Abort,
    Commit,
    RestartHook,
}

// ---------------------------------------------------------------------------
// Specification of the steps
// ---------------------------------------------------------------------------

/// `n - 1`, but 0 for 0 (`usize::saturating_sub(1)`).
pub open spec fn last_index(n: int) -> int {
    if n > 0 {
        n - 1
    } else {
        0
    }
}

/// The commit message: the editor's lines joined by newlines, trimmed.
pub open spec fn message_of(v: AppView) -> Seq<char> {
    trim(join(v.textarea.lines, seq!['\n']))
}

/// The conventional prefix for type `sel` and `scope`: `type: ` without a
/// scope, `type(scope): ` with one.
pub open spec fn conventional_prefix(sel: int, scope: Seq<char>) -> Seq<char> {
    if scope.len() == 0 {
        commit_kind_name(sel) + seq![':', ' ']
    } else {
        commit_kind_name(sel) + seq!['('] + scope + seq![')', ':', ' ']
    }
}

/// The invariant of the editor state: the type selection is in range, the
/// hook view's scroll position is on an output line (or 0), following new
/// output means being on the last line, waiting for the hook means a commit
/// is pending, the editor's cursor is on a line, and before the message is
/// edited the editor is untouched (cursor at the start, nothing selected).
pub open spec fn wf(v: AppView) -> bool {
    &&& 0 <= v.type_selection < COMMIT_TYPE_COUNT
    &&& 0 <= v.hook_scroll <= last_index(v.hook_output.len() as int)
    &&& v.hook_auto_scroll ==> v.hook_scroll == last_index(v.hook_output.len() as int)
    &&& v.hook_status is Waiting ==> v.pending_submit
    &&& cursor_in_text(v.textarea)
    &&& v.input_mode != InputMode::EditMessage ==> {
        &&& v.textarea.row == 0
        &&& v.textarea.col == 0
        &&& !v.textarea.selecting
    }
}

/// Between events, a commit is pending exactly while the editor waits for
/// the hook.
pub open spec fn pending_iff_waiting(v: AppView) -> bool {
    v.pending_submit <==> v.hook_status is Waiting
}

/// Effect of a hook event: the new state and whether to commit now. Output
/// is appended (and followed when auto-scrolling); a successful end commits
/// if a commit was pending; a failed end cancels the pending commit.
pub open spec fn hook_event_next(v: AppView, e: HookEvent) -> (AppView, bool) {
    match e {
        HookEvent::Output(line) => {
            let out = v.hook_output.push(line@);
            (
                AppView {
                    hook_output: out,
                    hook_scroll: if v.hook_auto_scroll {
                        out.len() - 1
                    } else {
                        v.hook_scroll
                    },
                    ..v
                },
                false,
            )
        },
        HookEvent::Finished { success, elapsed_nanos } => {
            if success {
                (AppView { hook_status: HookStatus::Passed(elapsed_nanos), ..v }, v.pending_submit)
            } else {
                (
                    AppView {
                        hook_status: HookStatus::Failed(elapsed_nanos),
                        pending_submit: false,
                        ..v
                    },
                    false,
                )
            }
        },
    }
}

/// Effect of an action on the loop: retrying restarts the hook (when there
/// is one) with a fresh output view; submitting an empty message does
/// nothing; submitting commits when the hook passed or there is none, is
/// refused when it failed, and waits for it while it runs.
pub open spec fn action_next(v: AppView, a: Action, has_hook: bool) -> (AppView, LoopStep) {
    match a {
        Action::Continue => (v, LoopStep::Tick),
        Action::Abort => (v, LoopStep::Abort),
        Action::Retry => {
            if has_hook {
                (
                    AppView {
                        hook_status: HookStatus::Running,
                        hook_output: Seq::empty(),
                        hook_scroll: 0,
                        hook_auto_scroll: true,
                        ..v
                    },
                    LoopStep::RestartHook,
                )
            } else {
                (v, LoopStep::Tick)
            }
        },
        Action::Submit => {
            if message_of(v).len() == 0 {
                (v, LoopStep::SkipTick)
            } else {
                match v.hook_status {
                    HookStatus::Passed(_) | HookStatus::NoHook => (v, LoopStep::Commit),
                    HookStatus::Failed(_) => (v, LoopStep::SkipTick),
                    HookStatus::Running | HookStatus::Waiting => (
                        AppView { pending_submit: true, hook_status: HookStatus::Waiting, ..v },
                        LoopStep::Tick,
                    ),
                }
            }
        },
    }
}

/// Ctrl+C or a bare Esc aborts in every mode.
pub open spec fn is_abort_key(k: KeyEvent) -> bool {
    ||| (k.code == KeyCode::Char('c') && k.modifiers == MOD_CONTROL)
    ||| (k.code == KeyCode::Esc && k.modifiers == MOD_NONE)
}

/// Keys while choosing the commit type: Up and Down move the highlight
/// within the list, Enter goes on to the scope.
pub open spec fn select_type_next(v: AppView, k: KeyEvent) -> AppView {
    match k.code {
        KeyCode::Up => if v.type_selection > 0 {
            AppView { type_selection: v.type_selection - 1, ..v }
        } else {
            v
        },
        KeyCode::Down => if v.type_selection < COMMIT_TYPE_COUNT - 1 {
            AppView { type_selection: v.type_selection + 1, ..v }
        } else {
            v
        },
        KeyCode::Enter => AppView { input_mode: InputMode::EnterScope, ..v },
        _ => v,
    }
}

/// Keys while typing the scope: Enter puts the conventional prefix into the
/// message at the cursor and goes on to the message, Backspace deletes the
/// scope's last character, any character is appended.
pub open spec fn enter_scope_step(v: AppView, k: KeyEvent, w: AppView) -> bool {
    match k.code {
        KeyCode::Enter => {
            let prefix = conventional_prefix(v.type_selection, v.scope_input);
            &&& w == AppView { textarea: w.textarea, input_mode: InputMode::EditMessage, ..v }
            &&& (!v.textarea.selecting && 0 <= v.textarea.row < v.textarea.lines.len())
                ==> w.textarea == model_after_insert_str(v.textarea, prefix).0
        },
        KeyCode::Backspace => w == AppView {
            scope_input: if v.scope_input.len() > 0 {
                v.scope_input.drop_last()
            } else {
                v.scope_input
            },
            ..v
        },
        KeyCode::Char(c) => w == AppView { scope_input: v.scope_input.push(c), ..v },
        _ => w == v,
    }
}

/// Keys while editing the message: Ctrl+S and Ctrl+Enter submit, Ctrl+R
/// retries a failed hook, Alt+Up and Alt+Down scroll the hook output
/// (scrolling up stops following it, reaching the last line follows it
/// again), and every other key goes to the editor, which changes as
/// `input_effect` says where it says anything.
pub open spec fn edit_message_step(v: AppView, k: KeyEvent, w: AppView, r: Action) -> bool {
    let last = last_index(v.hook_output.len() as int);
    if k.code == KeyCode::Char('s') && k.modifiers == MOD_CONTROL {
        r == Action::Submit && w == v
    } else if k.code == KeyCode::Enter && k.modifiers == MOD_CONTROL {
        r == Action::Submit && w == v
    } else if k.code == KeyCode::Char('r') && k.modifiers == MOD_CONTROL {
        r == (if v.hook_status is Failed {
            Action::Retry
        } else {
            Action::Continue
        }) && w == v
    } else if k.code == KeyCode::Up && k.modifiers == MOD_ALT {
        r == Action::Continue && w == AppView {
            hook_scroll: last_index(v.hook_scroll),
            hook_auto_scroll: false,
            ..v
        }
    } else if k.code == KeyCode::Down && k.modifiers == MOD_ALT {
        let s = if v.hook_scroll < last {
            v.hook_scroll + 1
        } else {
            v.hook_scroll
        };
        r == Action::Continue && w == AppView {
            hook_scroll: s,
            hook_auto_scroll: if s >= last {
                true
            } else {
                v.hook_auto_scroll
            },
            ..v
        }
    } else {
        &&& r == Action::Continue
        &&& w == AppView { textarea: w.textarea, ..v }
        &&& input_effect(v.textarea, text_input_spec(k)) matches Some(e) ==> w.textarea == e.0
        &&& w.textarea.placeholder == v.textarea.placeholder
    }
}

/// Effect of a key: abort keys abort in every mode; otherwise the mode's
/// own keys apply.
pub open spec fn key_step(v: AppView, k: KeyEvent, w: AppView, r: Action) -> bool {
    if is_abort_key(k) {
        r == Action::Abort && w == v
    } else {
        match v.input_mode {
            InputMode::SelectType => r == Action::Continue && w == select_type_next(v, k),
            InputMode::EnterScope => r == Action::Continue && enter_scope_step(v, k, w),
            InputMode::EditMessage => edit_message_step(v, k, w, r),
        }
    }
}

/// The state `App::new` starts from.
pub open spec fn initial_view(
    conventional: bool,
    extra_args: Seq<Seq<char>>,
    template: Option<Seq<char>>,
    staged_files: Seq<Seq<char>>,
) -> AppView {
    AppView {
        textarea: match template {
            Some(t) => fresh_model(lines(t)),
            None => TextModel { placeholder: "Enter commit message..."@, ..fresh_model(Seq::empty()) },
        },
        hook_status: HookStatus::Running,
        hook_output: Seq::empty(),
        tick_count: 0,
        pending_submit: false,
        conventional,
        extra_args,
        staged_files,
        hook_scroll: 0,
        hook_auto_scroll: true,
        input_mode: if conventional {
            InputMode::SelectType
        } else {
            InputMode::EditMessage
        },
        type_selection: 0,
        scope_input: Seq::empty(),
    }
}

// ---------------------------------------------------------------------------
// The event loop
// ---------------------------------------------------------------------------

/// What reaches the event loop: a key, an event of the running hook, or the
/// end of a frame (which counts it).
pub enum LoopEvent {
    Key(KeyEvent),
    Hook(HookEvent),
    Frame,
}

/// Where one event leaves the loop: going on, stopped without a commit, or
/// stopped after committing the message.
pub enum LoopOutcome {
    GoOn,
    Stop,
    Commit,
}

/// The state the loop starts from: the new session, marked as having no
/// hook when there is none.
pub open spec fn start_view(
    conventional: bool,
    extra_args: Seq<Seq<char>>,
    template: Option<Seq<char>>,
    staged_files: Seq<Seq<char>>,
    has_hook: bool,
) -> AppView {
    let v = initial_view(conventional, extra_args, template, staged_files);
    if has_hook {
        v
    } else {
        AppView { hook_status: HookStatus::NoHook, ..v }
    }
}

/// One turn of the loop from `v` to `w`. A key is handled (`mid` and `act`
/// are the state and action it gives) and its action carried out: an abort
/// stops, a commit commits, anything else goes on. A hook event is taken in
/// and, when it says to commit, the loop commits the message if it is not
/// empty and stops either way. A frame is counted.
pub open spec fn loop_step(
    v: AppView,
    ev: LoopEvent,
    has_hook: bool,
    mid: AppView,
    act: Action,
    w: AppView,
    out: LoopOutcome,
) -> bool {
    match ev {
        LoopEvent::Key(k) => {
            let (x, step) = action_next(mid, act, has_hook);
            &&& key_step(v, k, mid, act)
            &&& w == x
            &&& out == match step {
                LoopStep::Abort => LoopOutcome::Stop,
                LoopStep::Commit => LoopOutcome::Commit,
                _ => LoopOutcome::GoOn,
            }
        },
        LoopEvent::Hook(e) => {
            let (x, now) = hook_event_next(v, e);
            &&& w == x
            &&& out == if !now {
                LoopOutcome::GoOn
            } else if message_of(x).len() > 0 {
                LoopOutcome::Commit
            } else {
                LoopOutcome::Stop
            }
        },
        LoopEvent::Frame => w == AppView { tick_count: v.tick_count + 1, ..v } && out
            == LoopOutcome::GoOn,
    }
}

/// A run of the loop: `states[i]` leads by `events[i]` to `states[i + 1]`
/// (through `mids[i]` and `acts[i]` for a key), with outcome `outs[i]`; the
/// loop goes on after every event but the last; without a hook no hook
/// event comes.
pub open spec fn is_run(
    has_hook: bool,
    events: Seq<LoopEvent>,
    states: Seq<AppView>,
    mids: Seq<AppView>,
    acts: Seq<Action>,
    outs: Seq<LoopOutcome>,
) -> bool {
    &&& states.len() == events.len() + 1
    &&& mids.len() == events.len()
    &&& acts.len() == events.len()
    &&& outs.len() == events.len()
    &&& forall|i: int|
        0 <= i < events.len() ==> #[trigger] loop_step(
            states[i],
            events[i],
            has_hook,
            mids[i],
            acts[i],
            states[i + 1],
            outs[i],
        )
    &&& forall|i: int| 0 <= i < events.len() - 1 ==> #[trigger] outs[i] == LoopOutcome::GoOn
    &&& !has_hook ==> forall|i: int| 0 <= i < events.len() ==> !(#[trigger] events[i] is Hook)
}

/// Whether an event is the hook's successful end.
pub open spec fn is_hook_success(ev: LoopEvent) -> bool {
    ev matches LoopEvent::Hook(HookEvent::Finished { success, .. }) && success
}

// ---------------------------------------------------------------------------
// Steps
// ---------------------------------------------------------------------------

impl App {
    /// A new editor session: the message starts from the commit template
    /// (when there is one), the hook is taken to be running, and in
    /// conventional mode the commit type is asked for first.
    pub fn new(commit_opts: CommitOpts, template: Option<String>, staged_files: Vec<String>) -> (app: App)
        ensures
            app@ == initial_view(
                commit_opts.conventional,
                commit_opts.extra_args.deep_view(),
                match template {
                    Some(t) => Some(t@),
                    None => None,
                },
                staged_files.deep_view(),
            ),
            wf(app@),
    {
        let mut textarea = Editor::empty();
        textarea.set_placeholder_text("Enter commit message...");
        match &template {
            Some(tmpl) => {
                let ls = split_lines(tmpl.as_str());
                textarea = Editor::from_lines(ls);
            },
            None => {},
        }
        let conventional = commit_opts.conventional;
        let input_mode = if conventional {
            InputMode::SelectType
        } else {
            InputMode::EditMessage
        };
        let app = App {
            textarea,
            hook_status: HookStatus::Running,
            hook_output: Vec::new(),
            tick_count: 0,
            pending_submit: false,
            commit_opts,
            staged_files,
            hook_scroll: 0,
            hook_auto_scroll: true,
            input_mode,
            type_selection: 0,
            scope_input: String::new(),
        };
        assert(app.hook_output.deep_view() =~= Seq::<Seq<char>>::empty());
        app
    }

    /// Records that there is no pre-commit hook to wait for.
    pub fn mark_no_hook(&mut self)
        ensures
            final(self)@ == (AppView { hook_status: HookStatus::NoHook, ..old(self)@ }),
            wf(old(self)@) ==> wf(final(self)@),
    {
        self.hook_status = HookStatus::NoHook;
    }

    /// Counts a drawn frame.
    pub fn tick(&mut self)
        requires
            old(self).tick_count < usize::MAX,
        ensures
            final(self)@ == (AppView { tick_count: old(self)@.tick_count + 1, ..old(self)@ }),
            wf(old(self)@) ==> wf(final(self)@),
    {
        self.tick_count = self.tick_count + 1;
    }

    /// The commit message: the editor's lines joined by newlines, trimmed.
    pub fn message(&self) -> (m: String)
        ensures
            m@ == message_of(self@),
    {
        let ls = self.textarea.lines();
        let joined = join_strings(&ls, "\n");
        proof {
            reveal_strlit("\n");
            assert("\n"@ =~= seq!['\n']);
        }
        trim_str(joined.as_str())
    }

    /// The message to commit, or `None` when it is empty (nothing to commit).
    pub fn do_commit(&self) -> (m: Option<String>)
        ensures
            m is None <==> message_of(self@).len() == 0,
            m matches Some(s) ==> s@ == message_of(self@),
    {
        let m = self.message();
        if m.as_str().is_empty() {
            None
        } else {
            Some(m)
        }
    }

    /// Takes in one event from the hook; the result says whether to commit
    /// now.
    pub fn on_hook_event(&mut self, evt: HookEvent) -> (commit_now: bool)
        ensures
            (final(self)@, commit_now) == hook_event_next(old(self)@, evt),
            wf(old(self)@) ==> wf(final(self)@),
            pending_iff_waiting(old(self)@) && !commit_now ==> pending_iff_waiting(final(self)@),
    {
        match evt {
            HookEvent::Output(line) => {
                let ghost before = self.hook_output.deep_view();
                let ghost lv = line@;
                self.hook_output.push(line);
                assert(self.hook_output.deep_view() =~= before.push(lv));
                if self.hook_auto_scroll {
                    self.hook_scroll = self.hook_output.len() - 1;
                }
                false
            },
            HookEvent::Finished { success, elapsed_nanos } => {
                if success {
                    self.hook_status = HookStatus::Passed(elapsed_nanos);
                    self.pending_submit
                } else {
                    self.hook_status = HookStatus::Failed(elapsed_nanos);
                    self.pending_submit = false;
                    false
                }
            },
        }
    }

    /// Carries out what a key asked for; `has_hook` says whether there is a
    /// hook to restart.
    pub fn on_action(&mut self, action: Action, has_hook: bool) -> (step: LoopStep)
        ensures
            (final(self)@, step) == action_next(old(self)@, action, has_hook),
            wf(old(self)@) ==> wf(final(self)@),
            pending_iff_waiting(old(self)@) && (action == Action::Retry ==> old(self)@.hook_status is Failed)
                ==> pending_iff_waiting(final(self)@),
    {
        match action {
            Action::Continue => LoopStep::Tick,
            Action::Abort => LoopStep::Abort,
            Action::Retry => {
                if has_hook {
                    self.hook_status = HookStatus::Running;
                    self.hook_output = Vec::new();
                    self.hook_scroll = 0;
                    self.hook_auto_scroll = true;
                    assert(self.hook_output.deep_view() =~= Seq::<Seq<char>>::empty());
                    LoopStep::RestartHook
                } else {
                    LoopStep::Tick
                }
            },
            Action::Submit => {
                let message = self.message();
                if message.as_str().is_empty() {
                    return LoopStep::SkipTick;
                }
                match self.hook_status {
                    HookStatus::Passed(_) | HookStatus::NoHook => LoopStep::Commit,
                    HookStatus::Failed(_) => LoopStep::SkipTick,
                    HookStatus::Running | HookStatus::Waiting => {
                        self.pending_submit = true;
                        self.hook_status = HookStatus::Waiting;
                        LoopStep::Tick
                    },
                }
            },
        }
    }

    /// Reacts to a key.
    pub fn handle_key(&mut self, key: KeyEvent) -> (action: Action)
        requires
            (old(self).input_mode == InputMode::EnterScope && key.code == KeyCode::Enter
                && !is_abort_key(key)) ==> old(self).type_selection < COMMIT_TYPE_COUNT,
        ensures
            key_step(old(self)@, key, final(self)@, action),
            wf(old(self)@) ==> wf(final(self)@),
            action == Action::Retry ==> old(self)@.hook_status is Failed,
            pending_iff_waiting(old(self)@) ==> pending_iff_waiting(final(self)@),
    {
        if (key.code == KeyCode::Char('c') && key.modifiers == MOD_CONTROL) || (key.code
            == KeyCode::Esc && key.modifiers == MOD_NONE) {
            return Action::Abort;
        }
        match self.input_mode {
            InputMode::SelectType => self.handle_key_select_type(key),
            InputMode::EnterScope => self.handle_key_enter_scope(key),
            InputMode::EditMessage => self.handle_key_edit_message(key),
        }
    }

    fn handle_key_select_type(&mut self, key: KeyEvent) -> (action: Action)
        requires
            old(self).input_mode == InputMode::SelectType,
        ensures
            action == Action::Continue,
            final(self)@ == select_type_next(old(self)@, key),
            wf(old(self)@) ==> wf(final(self)@),
    {
        match key.code {
            KeyCode::Up => {
                if self.type_selection > 0 {
                    self.type_selection = self.type_selection - 1;
                }
                Action::Continue
            },
            KeyCode::Down => {
                if self.type_selection < COMMIT_TYPE_COUNT - 1 {
                    self.type_selection = self.type_selection + 1;
                }
                Action::Continue
            },
            KeyCode::Enter => {
                self.input_mode = InputMode::EnterScope;
                Action::Continue
            },
            _ => Action::Continue,
        }
    }

    fn handle_key_enter_scope(&mut self, key: KeyEvent) -> (action: Action)
        requires
            old(self).input_mode == InputMode::EnterScope,
            key.code == KeyCode::Enter ==> old(self).type_selection < COMMIT_TYPE_COUNT,
        ensures
            action == Action::Continue,
            enter_scope_step(old(self)@, key, final(self)@),
            wf(old(self)@) ==> wf(final(self)@),
    {
        match key.code {
            KeyCode::Enter => {
                let (kind_name, _) = commit_type(self.type_selection);
                let mut prefix = String::new();
                push_str(&mut prefix, kind_name);
                if self.scope_input.as_str().is_empty() {
                    push_char(&mut prefix, ':');
                    push_char(&mut prefix, ' ');
                } else {
                    push_char(&mut prefix, '(');
                    push_str(&mut prefix, self.scope_input.as_str());
                    push_char(&mut prefix, ')');
                    push_char(&mut prefix, ':');
                    push_char(&mut prefix, ' ');
                }
                assert(prefix@ =~= conventional_prefix(
                    self.type_selection as int,
                    self.scope_input@,
                ));
                self.textarea.insert_str(prefix.as_str());
                self.input_mode = InputMode::EditMessage;
                Action::Continue
            },
            KeyCode::Backspace => {
                pop_char(&mut self.scope_input);
                Action::Continue
            },
            KeyCode::Char(c) => {
                push_char(&mut self.scope_input, c);
                Action::Continue
            },
            _ => Action::Continue,
        }
    }

    fn handle_key_edit_message(&mut self, key: KeyEvent) -> (action: Action)
        requires
            old(self).input_mode == InputMode::EditMessage,
        ensures
            edit_message_step(old(self)@, key, final(self)@, action),
            wf(old(self)@) ==> wf(final(self)@),
    {
        let last = if self.hook_output.len() > 0 {
            self.hook_output.len() - 1
        } else {
            0
        };
        if key.code == KeyCode::Char('s') && key.modifiers == MOD_CONTROL {
            Action::Submit
        } else if key.code == KeyCode::Enter && key.modifiers == MOD_CONTROL {
            Action::Submit
        } else if key.code == KeyCode::Char('r') && key.modifiers == MOD_CONTROL {
            match self.hook_status {
                HookStatus::Failed(_) => Action::Retry,
                _ => Action::Continue,
            }
        } else if key.code == KeyCode::Up && key.modifiers == MOD_ALT {
            self.hook_scroll = if self.hook_scroll > 0 {
                self.hook_scroll - 1
            } else {
                0
            };
            self.hook_auto_scroll = false;
            Action::Continue
        } else if key.code == KeyCode::Down && key.modifiers == MOD_ALT {
            if self.hook_scroll < last {
                self.hook_scroll = self.hook_scroll + 1;
            }
            if self.hook_scroll >= last {
                self.hook_auto_scroll = true;
            }
            Action::Continue
        } else {
            self.textarea.input(key.text_input());
            Action::Continue
        }
    }
}

/// What to print when the editor closes: the output of `git commit`, or a
/// note that nothing was committed.
pub fn exit_message(outcome: &Option<String>) -> (m: String)
    ensures
        m@ == match outcome {
            Some(out) => out@,
            None => "Commit aborted."@,
        },
{
    match outcome {
        Some(out) => out.clone(),
        None => "Commit aborted.".to_owned(),
    }
}

} // verus!
