use vstd::prelude::*;
use crate::git::{
    GitCmd, checkout_new_branch_cmd, commit_amend_cmd, commit_cmd, display_of, fetch_all_cmd,
    pull_cmd, push_cmd, rebase_abort_cmd, rebase_continue_cmd,
};
use crate::items::{Action, ActionV, TargetData, get_action, selection_action};
use crate::ops::{Op, SubmenuOp, TargetOp};
use crate::prompt::{Prompt, PromptStatus};
use crate::screen::{Item, Rect, Screen, ScreenKind};

verus! {

/// The last command's text and, once it has finished, what it wrote to its error stream.
#[derive(Debug, PartialEq, Eq)]
pub struct CmdMetaBuffer {
    pub args: String,
    pub out: Option<String>,
}

/// The last error shown to the user.
#[derive(Debug, PartialEq, Eq)]
pub struct ErrorBuffer(pub String);

/// Work that the surrounding event loop performs on the library's behalf.
#[derive(Debug, PartialEq, Eq)]
pub enum Effect {
    /// Re-derive the active screen's items from the repository.
    Refresh,
    /// Run the command with captured output, feeding it `input`, then report its
    /// error stream with `record_output`.
    Run { cmd: GitCmd, input: Vec<u8> },
    /// Hand the terminal to the command, then report it with `record_output`.
    Subscreen { cmd: GitCmd },
}

pub enum EffectV {
    Refresh,
    Run(Seq<Seq<char>>, Seq<u8>),
    Subscreen(Seq<Seq<char>>),
}

impl View for Effect {
    type V = EffectV;

    open spec fn view(&self) -> EffectV {
        match self {
            Effect::Refresh => EffectV::Refresh,
            Effect::Run { cmd, input } => EffectV::Run(cmd@, input@),
            Effect::Subscreen { cmd } => EffectV::Subscreen(cmd@),
        }
    }
}

pub open spec fn opt_effect_view(e: Option<Effect>) -> Option<EffectV> {
    match e {
        Some(e) => Some(e@),
        None => None,
    }
}

/// What the event loop is asked to do for an action.
pub open spec fn effect_of_action(a: ActionV) -> EffectV {
    match a {
        ActionV::Show(_) => EffectV::Refresh,
        ActionV::Run(cmd, input) => EffectV::Run(cmd, input),
        ActionV::Subscreen(cmd) => EffectV::Subscreen(cmd),
    }
}

pub open spec fn opt_effect_of_action(a: Option<ActionV>) -> Option<EffectV> {
    match a {
        Some(a) => Some(effect_of_action(a)),
        None => None,
    }
}

/// The command buffer shows `cmd` as running, with no output yet.
pub open spec fn shows_pending(b: Option<CmdMetaBuffer>, cmd: Seq<Seq<char>>) -> bool {
    match b {
        Some(m) => m.args@ == display_of(cmd) && m.out is None,
        None => false,
    }
}

/// A change of the screen stack.
pub enum StackOp {
    Push,
    Pop,
}

/// Length and quit flag of the screen stack after one change. Nothing changes once
/// the quit flag is set: the event loop has stopped.
pub open spec fn stack_step(len: nat, quit: bool, op: StackOp) -> (nat, bool) {
    if quit {
        (len, quit)
    } else {
        match op {
            StackOp::Push => ((len + 1) as nat, false),
            StackOp::Pop => if len <= 1 {
                (0, true)
            } else {
                ((len - 1) as nat, false)
            },
        }
    }
}

/// Length and quit flag after a sequence of changes.
pub open spec fn stack_run(len: nat, quit: bool, ops: Seq<StackOp>) -> (nat, bool)
    decreases ops.len(),
{
    if ops.len() == 0 {
        (len, quit)
    } else {
        let prev = stack_run(len, quit, ops.drop_last());
        stack_step(prev.0, prev.1, ops.last())
    }
}

/// Starting from a non-empty stack, after any sequence of pushes and pops the stack is
/// non-empty while the quit flag is clear, and empty once it is set.
pub proof fn lemma_stack_nonempty_until_quit(len: nat, ops: Seq<StackOp>)
    requires
        len >= 1,
    ensures
        !stack_run(len, false, ops).1 ==> stack_run(len, false, ops).0 >= 1,
        stack_run(len, false, ops).1 ==> stack_run(len, false, ops).0 == 0,
    decreases ops.len(),
{
    if ops.len() > 0 {
        lemma_stack_nonempty_until_quit(len, ops.drop_last());
    }
}

/// The quit flag gets set by a change exactly when that change pops the last screen.
pub proof fn lemma_quit_on_last_pop(len: nat, op: StackOp)
    requires
        len >= 1,
    ensures
        stack_step(len, false, op).1 <==> (op is Pop && len == 1),
{
}

/// Everything but the prompt is left as it was.
pub open spec fn same_but_prompt(pre: State, post: State) -> bool {
    &&& post.quit == pre.quit
    &&& post.screens == pre.screens
    &&& post.pending_submenu_op == pre.pending_submenu_op
    &&& post.cmd_meta_buffer == pre.cmd_meta_buffer
    &&& post.error_buffer == pre.error_buffer
}

/// The prompt was opened for `op`.
pub open spec fn prompt_opened(p: Prompt, op: Op) -> bool {
    &&& p.pending_op == Some(op)
    &&& p.status == PromptStatus::Pending
    &&& p.value@.len() == 0
    &&& p.focused
}

/// The effect of an action on the stack and the command buffer.
pub open spec fn action_done(pre: State, post: State, a: ActionV) -> bool {
    &&& post.quit == pre.quit
    &&& post.error_buffer == pre.error_buffer
    &&& match a {
        ActionV::Show(reference) => {
            &&& post.screens@.len() == pre.screens@.len() + 1
            &&& post.screens@.drop_last() == pre.screens@
            &&& (post.screens@.last().kind matches ScreenKind::Show(s) && s@ == reference)
            &&& post.screens@.last().size == pre.screens@.last().size
            &&& post.screens@.last().items@.len() == 0
            &&& post.cmd_meta_buffer == pre.cmd_meta_buffer
        },
        ActionV::Run(cmd, _) => {
            &&& post.screens == pre.screens
            &&& shows_pending(post.cmd_meta_buffer, cmd)
        },
        ActionV::Subscreen(_) => {
            &&& post.screens == pre.screens
            &&& post.cmd_meta_buffer == pre.cmd_meta_buffer
        },
    }
}

/// The effect of an operation that only runs a fixed command.
pub open spec fn plain_op_effect(op: Op) -> Option<EffectV> {
    match op {
        Op::Commit => Some(EffectV::Subscreen(seq!["commit"@])),
        Op::CommitAmend => Some(EffectV::Subscreen(seq!["commit"@, "--amend"@])),
        Op::RebaseContinue => Some(EffectV::Subscreen(seq!["rebase"@, "--continue"@])),
        Op::Push => Some(EffectV::Run(seq!["push"@], seq![])),
        Op::Pull => Some(EffectV::Run(seq!["pull"@], seq![])),
        Op::FetchAll => Some(EffectV::Run(seq!["fetch"@, "--all"@], seq![])),
        Op::RebaseAbort => Some(EffectV::Run(seq!["rebase"@, "--abort"@], seq![])),
        _ => None,
    }
}

/// The stack after truncating to the base screen and pushing a fresh view of `kind`.
pub open spec fn drilled_down(pre: State, post: State, kind: ScreenKind) -> bool {
    &&& !post.quit
    &&& post.screens@.len() == 2
    &&& post.screens@[0] == pre.screens@[0]
    &&& post.screens@[1].kind == kind
    &&& post.screens@[1].size == pre.screens@[0].size
    &&& post.screens@[1].items@.len() == 0
}

/// What handling `op` does, from `pre` to `post`, asking the event loop for `r`.
pub open spec fn op_done(pre: State, post: State, op: Op, r: Option<EffectV>) -> bool {
    &&& (op matches Op::Submenu(s) ==> post.pending_submenu_op == s)
    &&& (!(op is Submenu) ==> post.pending_submenu_op == SubmenuOp::Base)
    &&& post.error_buffer == pre.error_buffer
    &&& match op {
        Op::Quit => {
            &&& post.prompt == pre.prompt
            &&& post.cmd_meta_buffer == pre.cmd_meta_buffer
            &&& if pre.pending_submenu_op != SubmenuOp::Base {
                post.screens == pre.screens && post.quit == pre.quit && r is None
            } else {
                &&& post.screens@ == pre.screens@.drop_last()
                &&& post.quit == (pre.screens@.len() == 1)
                &&& r == (if pre.screens@.len() > 1 {
                    Some(EffectV::Refresh)
                } else {
                    None
                })
            }
        },
        Op::Refresh | Op::Submenu(_) => {
            &&& post.prompt == pre.prompt
            &&& post.cmd_meta_buffer == pre.cmd_meta_buffer
            &&& post.screens == pre.screens
            &&& post.quit == pre.quit
            &&& r == (if op is Refresh {
                Some(EffectV::Refresh)
            } else {
                None
            })
        },
        Op::LogCurrent | Op::ShowRefs => {
            &&& post.prompt == pre.prompt
            &&& post.cmd_meta_buffer == pre.cmd_meta_buffer
            &&& drilled_down(
                pre,
                post,
                if op is LogCurrent {
                    ScreenKind::Log(None)
                } else {
                    ScreenKind::ShowRefs
                },
            )
            &&& r == Some(EffectV::Refresh)
        },
        Op::CheckoutNewBranch => {
            &&& prompt_opened(post.prompt, op)
            &&& post.cmd_meta_buffer == pre.cmd_meta_buffer
            &&& post.screens == pre.screens
            &&& post.quit == pre.quit
            &&& r is None
        },
        Op::Target(t) => if t == TargetOp::Discard {
            &&& post.cmd_meta_buffer == pre.cmd_meta_buffer
            &&& post.screens == pre.screens
            &&& post.quit == pre.quit
            &&& r is None
            &&& if selection_action(pre.selected(), t) is None {
                post.prompt == pre.prompt
            } else {
                prompt_opened(post.prompt, op)
            }
        } else {
            &&& post.prompt == pre.prompt
            &&& r == opt_effect_of_action(selection_action(pre.selected(), t))
            &&& match selection_action(pre.selected(), t) {
                Some(a) => action_done(pre, post, a),
                None => {
                    &&& post.cmd_meta_buffer == pre.cmd_meta_buffer
                    &&& post.screens == pre.screens
                    &&& post.quit == pre.quit
                },
            }
        },
        _ => {
            &&& post.prompt == pre.prompt
            &&& post.screens == pre.screens
            &&& post.quit == pre.quit
            &&& r == plain_op_effect(op)
            &&& match plain_op_effect(op) {
                Some(EffectV::Run(cmd, _)) => shows_pending(post.cmd_meta_buffer, cmd),
                _ => post.cmd_meta_buffer == pre.cmd_meta_buffer,
            }
        },
    }
}

/// The message recorded when a confirmation is declined.
pub open spec fn discard_aborted_msg() -> Seq<char> {
    "Target(Discard) aborted"@
}

/// What one step of the prompt does, from `pre` to `post`, asking the event loop for `r`.
pub open spec fn prompt_done(pre: State, post: State, r: Option<EffectV>) -> bool {
    let p = pre.prompt;
    if p.status == PromptStatus::Aborted {
        same_but_prompt(pre, post) && post.prompt.is_idle() && r is None
    } else if p.pending_op == Some(Op::CheckoutNewBranch) && p.status == PromptStatus::Done {
        let cmd = seq!["checkout"@, "-b"@, p.value@];
        &&& r == Some(EffectV::Run(cmd, seq![]))
        &&& shows_pending(post.cmd_meta_buffer, cmd)
        &&& post.prompt.is_idle()
        &&& post.quit == pre.quit
        &&& post.screens == pre.screens
        &&& post.pending_submenu_op == pre.pending_submenu_op
        &&& post.error_buffer == pre.error_buffer
    } else if p.pending_op == Some(Op::Target(TargetOp::Discard)) && p.status
        == PromptStatus::Pending {
        if p.value@ == "y"@ {
            let a = selection_action(pre.selected(), TargetOp::Discard);
            &&& r == opt_effect_of_action(a)
            &&& post.prompt.is_idle()
            &&& post.pending_submenu_op == pre.pending_submenu_op
            &&& match a {
                Some(a) => action_done(pre, post, a),
                None => post.screens == pre.screens && post.quit == pre.quit
                    && post.cmd_meta_buffer == pre.cmd_meta_buffer && post.error_buffer
                    == pre.error_buffer,
            }
        } else if p.value@.len() == 0 {
            same_but_prompt(pre, post) && post.prompt == pre.prompt && r is None
        } else {
            &&& r is None
            &&& post.prompt.is_idle()
            &&& (post.error_buffer matches Some(e) && e.0@ == discard_aborted_msg())
            &&& post.quit == pre.quit
            &&& post.screens == pre.screens
            &&& post.pending_submenu_op == pre.pending_submenu_op
            &&& post.cmd_meta_buffer == pre.cmd_meta_buffer
        }
    } else {
        same_but_prompt(pre, post) && post.prompt == pre.prompt && r is None
    }
}

/// A branch name that the prompt has completed is dispatched once, as a checkout of a
/// new branch of that name; the prompt is then idle and a further step dispatches nothing.
pub proof fn lemma_new_branch_dispatched_once(
    s0: State,
    s1: State,
    s2: State,
    r1: Option<EffectV>,
    r2: Option<EffectV>,
)
    requires
        s0.prompt.pending_op == Some(Op::CheckoutNewBranch),
        s0.prompt.status == PromptStatus::Done,
        prompt_done(s0, s1, r1),
        prompt_done(s1, s2, r2),
    ensures
        r1 == Some(EffectV::Run(seq!["checkout"@, "-b"@, s0.prompt.value@], seq![])),
        s1.prompt.is_idle(),
        r2 is None,
        s2.prompt.is_idle(),
{
}

/// Confirming a discard with `"y"` runs the discard of the selected item once; the
/// prompt is then idle and a further step runs nothing.
pub proof fn lemma_discard_confirmed_once(
    s0: State,
    s1: State,
    s2: State,
    r1: Option<EffectV>,
    r2: Option<EffectV>,
)
    requires
        s0.prompt.pending_op == Some(Op::Target(TargetOp::Discard)),
        s0.prompt.status == PromptStatus::Pending,
        s0.prompt.value@ == "y"@,
        prompt_done(s0, s1, r1),
        prompt_done(s1, s2, r2),
    ensures
        r1 == opt_effect_of_action(selection_action(s0.selected(), TargetOp::Discard)),
        s1.prompt.is_idle(),
        r2 is None,
        s2.prompt.is_idle(),
{
}

/// An input event, as the event loop hands it over.
pub enum Event {
    /// The terminal now has this width and height.
    Resize(u16, u16),
    /// A key outside the prompt: whether it was pressed (not released or repeated),
    /// and the operation it resolves to in the current keymap context.
    Key { press: bool, op: Option<Op> },
    /// What the prompt's input widget holds after it took a key.
    PromptInput { status: PromptStatus, value: String },
    /// Anything else.
    Other,
}

/// `pre` with both message buffers emptied.
pub open spec fn cleared(pre: State) -> State {
    State { cmd_meta_buffer: None, error_buffer: None, ..pre }
}

/// Every screen got the geometry `(width, height)`; nothing else changed.
pub open spec fn resized(pre: State, post: State, width: u16, height: u16) -> bool {
    &&& post.screens@.len() == pre.screens@.len()
    &&& forall|i: int|
        0 <= i < post.screens@.len() ==> (#[trigger] post.screens@[i]).size == (Rect {
            x: 0,
            y: 0,
            width,
            height,
        }) && post.screens@[i].kind == pre.screens@[i].kind && post.screens@[i].items
            == pre.screens@[i].items && post.screens@[i].cursor == pre.screens@[i].cursor
    &&& post.quit == pre.quit
    &&& post.pending_submenu_op == pre.pending_submenu_op
    &&& post.cmd_meta_buffer == pre.cmd_meta_buffer
    &&& post.error_buffer == pre.error_buffer
    &&& post.prompt == pre.prompt
}

/// What an accepted key does: both buffers are emptied, then the operation, if any, is handled.
pub open spec fn key_done(pre: State, post: State, op: Option<Op>, r: Option<EffectV>) -> bool {
    match op {
        Some(op) => op_done(cleared(pre), post, op, r),
        None => post == cleared(pre) && r is None,
    }
}

/// What handling `event` does before the prompt's step.
pub open spec fn event_done(pre: State, post: State, event: Event, r: Option<EffectV>) -> bool {
    match event {
        Event::Resize(w, h) => resized(pre, post, w, h) && r is None,
        Event::Key { press, op } => if pre.prompt.focused || !press {
            post == pre && r is None
        } else {
            key_done(pre, post, op, r)
        },
        Event::PromptInput { status, value } => {
            &&& same_but_prompt(pre, post)
            &&& r is None
            &&& post.prompt.pending_op == pre.prompt.pending_op
            &&& post.prompt.focused == pre.prompt.focused
            &&& if pre.prompt.pending_op is Some {
                post.prompt.status == status && post.prompt.value == value
            } else {
                post.prompt == pre.prompt
            }
        },
        Event::Other => post == pre && r is None,
    }
}

pub open spec fn opt_seq(e: Option<EffectV>) -> Seq<EffectV> {
    match e {
        Some(e) => seq![e],
        None => seq![],
    }
}

pub open spec fn effects_view(v: Seq<Effect>) -> Seq<EffectV> {
    v.map_values(|e: Effect| e@)
}

/// The root state: the screen stack, the open submenu, the two message buffers and the prompt.
#[derive(Debug, PartialEq, Eq)]
pub struct State {
    pub quit: bool,
    pub screens: Vec<Screen>,
    pub pending_submenu_op: SubmenuOp,
    pub cmd_meta_buffer: Option<CmdMetaBuffer>,
    pub error_buffer: Option<ErrorBuffer>,
    pub prompt: Prompt,
}

impl State {
    /// The stack is empty exactly when the quit flag is set; every screen and the prompt
    /// are well formed.
    pub open spec fn wf(&self) -> bool {
        &&& (self.quit <==> self.screens@.len() == 0)
        &&& forall|i: int| 0 <= i < self.screens@.len() ==> (#[trigger] self.screens@[i]).wf()
        &&& self.prompt.wf()
    }

    /// What the active screen's selected item carries.
    pub open spec fn selected(&self) -> Option<TargetData> {
        if self.screens@.len() > 0 {
            self.screens@.last().selected()
        } else {
            None
        }
    }

    /// The root state at start-up: one screen, the commit-show view on `show` when
    /// given, else the status view, to be filled by a refresh.
    pub fn create(size: Rect, show: Option<String>) -> (r: State)
        ensures
            r.wf(),
            !r.quit,
            r.screens@.len() == 1,
            r.screens@[0].size == size,
            r.screens@[0].items@.len() == 0,
            r.screens@[0].kind == match show {
                Some(reference) => ScreenKind::Show(reference),
                None => ScreenKind::Status,
            },
            r.pending_submenu_op == SubmenuOp::Base,
            r.cmd_meta_buffer is None,
            r.error_buffer is None,
            r.prompt.is_idle(),
    {
        let kind = match show {
            Some(reference) => ScreenKind::Show(reference),
            None => ScreenKind::Status,
        };
        let mut screens = Vec::new();
        screens.push(Screen::create(kind, size));
        State {
            quit: false,
            screens,
            pending_submenu_op: SubmenuOp::Base,
            cmd_meta_buffer: None,
            error_buffer: None,
            prompt: Prompt::new(),
        }
    }

    /// Pushes a screen on the stack; it becomes the active one.
    pub fn push_screen(&mut self, screen: Screen)
        requires
            old(self).wf(),
            !old(self).quit,
            screen.wf(),
        ensures
            final(self).wf(),
            final(self).screens@ == old(self).screens@.push(screen),
            (final(self).screens@.len(), final(self).quit) == stack_step(
                old(self).screens@.len(),
                old(self).quit,
                StackOp::Push,
            ),
            final(self).pending_submenu_op == old(self).pending_submenu_op,
            final(self).cmd_meta_buffer == old(self).cmd_meta_buffer,
            final(self).error_buffer == old(self).error_buffer,
            final(self).prompt == old(self).prompt,
    {
        self.screens.push(screen);
        assert forall|i: int| 0 <= i < self.screens@.len() implies (#[trigger] self.screens@[
            i
        ]).wf() by {
            if i < old(self).screens@.len() {
                assert(self.screens@[i] == old(self).screens@[i]);
            }
        }
    }

    /// Leaves the active screen, or only the open submenu when `was_submenu`. Popping
    /// the last screen sets the quit flag; otherwise the new active screen is refreshed.
    pub fn handle_quit(&mut self, was_submenu: bool) -> (r: Option<Effect>)
        requires
            old(self).wf(),
            !old(self).quit,
        ensures
            final(self).wf(),
            was_submenu ==> final(self).screens == old(self).screens && !final(self).quit
                && r is None,
            !was_submenu ==> final(self).screens@ == old(self).screens@.drop_last(),
            !was_submenu ==> (final(self).screens@.len(), final(self).quit) == stack_step(
                old(self).screens@.len(),
                old(self).quit,
                StackOp::Pop,
            ),
            !was_submenu ==> opt_effect_view(r) == (if old(self).screens@.len() > 1 {
                Some(EffectV::Refresh)
            } else {
                None
            }),
            final(self).pending_submenu_op == old(self).pending_submenu_op,
            final(self).cmd_meta_buffer == old(self).cmd_meta_buffer,
            final(self).error_buffer == old(self).error_buffer,
            final(self).prompt == old(self).prompt,
    {
        if was_submenu {
            None
        } else {
            let _ = self.screens.pop();
            if self.screens.len() > 0 {
                Some(Effect::Refresh)
            } else {
                self.quit = true;
                None
            }
        }
    }

    /// Sets the geometry of every screen on the stack.
    pub fn resize(&mut self, width: u16, height: u16)
        requires
            old(self).wf(),
        ensures
            final(self).wf(),
            final(self).screens@.len() == old(self).screens@.len(),
            forall|i: int|
                0 <= i < final(self).screens@.len() ==> (#[trigger] final(self).screens@[i]).size
                    == (Rect { x: 0, y: 0, width, height }) && final(self).screens@[i].kind
                    == old(self).screens@[i].kind && final(self).screens@[i].items
                    == old(self).screens@[i].items && final(self).screens@[i].cursor
                    == old(self).screens@[i].cursor,
            final(self).quit == old(self).quit,
            final(self).pending_submenu_op == old(self).pending_submenu_op,
            final(self).cmd_meta_buffer == old(self).cmd_meta_buffer,
            final(self).error_buffer == old(self).error_buffer,
            final(self).prompt == old(self).prompt,
    {
        let mut rest: Vec<Screen> = Vec::new();
        core::mem::swap(&mut self.screens, &mut rest);
        let ghost orig = rest@;
        let n = rest.len();
        let mut i: usize = 0;
        while i < n
            invariant
                n == orig.len(),
                orig == old(self).screens@,
                i <= n,
                self.quit == old(self).quit,
                self.pending_submenu_op == old(self).pending_submenu_op,
                self.cmd_meta_buffer == old(self).cmd_meta_buffer,
                self.error_buffer == old(self).error_buffer,
                self.prompt == old(self).prompt,
                rest@ == orig.subrange(i as int, n as int),
                self.screens@.len() == i,
                forall|j: int|
                    0 <= j < i ==> (#[trigger] self.screens@[j]).size == (Rect {
                        x: 0,
                        y: 0,
                        width,
                        height,
                    }) && self.screens@[j].kind == orig[j].kind && self.screens@[j].items
                        == orig[j].items && self.screens@[j].cursor == orig[j].cursor,
            decreases n - i,
        {
            let mut s = rest.remove(0);
            assert(s == orig[i as int]);
            s.size = Rect::new(0, 0, width, height);
            self.screens.push(s);
            assert(rest@ =~= orig.subrange(i as int + 1, n as int));
            i = i + 1;
        }
        assert forall|j: int| 0 <= j < self.screens@.len() implies (#[trigger] self.screens@[
            j
        ]).wf() by {
            assert(orig[j].wf());
        }
    }

    /// Replaces the active screen's items with freshly derived ones.
    pub fn refresh_screen(&mut self, items: Vec<Item>)
        requires
            old(self).wf(),
            !old(self).quit,
        ensures
            final(self).wf(),
            final(self).screens@.len() == old(self).screens@.len(),
            final(self).screens@.drop_last() == old(self).screens@.drop_last(),
            final(self).screens@.last().items@ == items@,
            final(self).screens@.last().kind == old(self).screens@.last().kind,
            final(self).screens@.last().size == old(self).screens@.last().size,
            old(self).screens@.last().cursor < items@.len() ==> final(self).screens@.last().cursor
                == old(self).screens@.last().cursor,
            final(self).quit == old(self).quit,
            final(self).pending_submenu_op == old(self).pending_submenu_op,
            final(self).cmd_meta_buffer == old(self).cmd_meta_buffer,
            final(self).error_buffer == old(self).error_buffer,
            final(self).prompt == old(self).prompt,
    {
        let mut top = self.screens.pop().unwrap();
        top.set_items(items);
        self.screens.push(top);
        assert(self.screens@.drop_last() =~= old(self).screens@.drop_last());
        assert forall|j: int| 0 <= j < self.screens@.len() implies (#[trigger] self.screens@[
            j
        ]).wf() by {
            if j < self.screens@.len() - 1 {
                assert(self.screens@[j] == old(self).screens@[j]);
            }
        }
    }

    /// Truncates the stack to its base screen and opens the log view on `reference`
    /// (the current branch when absent) with the base screen's geometry.
    pub fn goto_log_screen(&mut self, reference: Option<String>) -> (r: Effect)
        requires
            old(self).wf(),
            !old(self).quit,
        ensures
            final(self).wf(),
            !final(self).quit,
            final(self).screens@.len() == 2,
            final(self).screens@[0] == old(self).screens@[0],
            final(self).screens@[1].kind == ScreenKind::Log(reference),
            final(self).screens@[1].size == old(self).screens@[0].size,
            final(self).screens@[1].items@.len() == 0,
            r is Refresh,
            final(self).pending_submenu_op == old(self).pending_submenu_op,
            final(self).cmd_meta_buffer == old(self).cmd_meta_buffer,
            final(self).error_buffer == old(self).error_buffer,
            final(self).prompt == old(self).prompt,
    {
        self.screens.truncate(1);
        let size = self.screens[0].size;
        self.screens.push(Screen::create(ScreenKind::Log(reference), size));
        assert(self.screens@[0] == old(self).screens@[0]);
        Effect::Refresh
    }

    /// Truncates the stack to its base screen and opens the branch list with the base
    /// screen's geometry.
    pub fn goto_refs_screen(&mut self) -> (r: Effect)
        requires
            old(self).wf(),
            !old(self).quit,
        ensures
            final(self).wf(),
            !final(self).quit,
            final(self).screens@.len() == 2,
            final(self).screens@[0] == old(self).screens@[0],
            final(self).screens@[1].kind == ScreenKind::ShowRefs,
            final(self).screens@[1].size == old(self).screens@[0].size,
            final(self).screens@[1].items@.len() == 0,
            r is Refresh,
            final(self).pending_submenu_op == old(self).pending_submenu_op,
            final(self).cmd_meta_buffer == old(self).cmd_meta_buffer,
            final(self).error_buffer == old(self).error_buffer,
            final(self).prompt == old(self).prompt,
    {
        self.screens.truncate(1);
        let size = self.screens[0].size;
        self.screens.push(Screen::create(ScreenKind::ShowRefs, size));
        assert(self.screens@[0] == old(self).screens@[0]);
        Effect::Refresh
    }

    /// Shows `cmd` as running, before it is started.
    pub fn begin_cmd(&mut self, cmd: &GitCmd)
        ensures
            shows_pending(final(self).cmd_meta_buffer, cmd@),
            final(self).quit == old(self).quit,
            final(self).screens == old(self).screens,
            final(self).pending_submenu_op == old(self).pending_submenu_op,
            final(self).error_buffer == old(self).error_buffer,
            final(self).prompt == old(self).prompt,
    {
        self.cmd_meta_buffer = Some(CmdMetaBuffer { args: cmd.display(), out: None });
    }

    fn run(&mut self, cmd: GitCmd) -> (r: Effect)
        ensures
            r@ == EffectV::Run(cmd@, seq![]),
            shows_pending(final(self).cmd_meta_buffer, cmd@),
            final(self).quit == old(self).quit,
            final(self).screens == old(self).screens,
            final(self).pending_submenu_op == old(self).pending_submenu_op,
            final(self).error_buffer == old(self).error_buffer,
            final(self).prompt == old(self).prompt,
    {
        self.begin_cmd(&cmd);
        let input: Vec<u8> = Vec::new();
        assert(input@ =~= seq![]);
        Effect::Run { cmd, input }
    }

    /// Records a finished command with what it wrote to its error stream; the active
    /// screen is then refreshed.
    pub fn record_output(&mut self, cmd: &GitCmd, out: String) -> (r: Effect)
        ensures
            r is Refresh,
            match final(self).cmd_meta_buffer {
                Some(m) => m.args@ == display_of(cmd@) && m.out == Some(out),
                None => false,
            },
            final(self).quit == old(self).quit,
            final(self).screens == old(self).screens,
            final(self).pending_submenu_op == old(self).pending_submenu_op,
            final(self).error_buffer == old(self).error_buffer,
            final(self).prompt == old(self).prompt,
    {
        self.cmd_meta_buffer = Some(CmdMetaBuffer { args: cmd.display(), out: Some(out) });
        Effect::Refresh
    }

    /// Carries out an action for the selected item.
    pub fn perform(&mut self, action: Action) -> (r: Effect)
        requires
            old(self).wf(),
            !old(self).quit,
        ensures
            final(self).wf(),
            r@ == effect_of_action(action@),
            action_done(*old(self), *final(self), action@),
            final(self).pending_submenu_op == old(self).pending_submenu_op,
            final(self).prompt == old(self).prompt,
    {
        match action {
            Action::Show(reference) => {
                let size = self.screens[self.screens.len() - 1].size;
                self.push_screen(Screen::create(ScreenKind::Show(reference), size));
                assert(self.screens@.drop_last() =~= old(self).screens@);
                Effect::Refresh
            },
            Action::Run { cmd, input } => {
                self.begin_cmd(&cmd);
                Effect::Run { cmd, input }
            },
            Action::Subscreen { cmd } => Effect::Subscreen { cmd },
        }
    }

    /// Runs `op` on the active screen's selection, when it applies there.
    pub fn try_dispatch_target_action(&mut self, op: TargetOp) -> (r: Option<Effect>)
        requires
            old(self).wf(),
            !old(self).quit,
        ensures
            final(self).wf(),
            opt_effect_view(r) == opt_effect_of_action(selection_action(old(self).selected(), op)),
            match selection_action(old(self).selected(), op) {
                Some(a) => action_done(*old(self), *final(self), a),
                None => *final(self) == *old(self),
            },
            final(self).pending_submenu_op == old(self).pending_submenu_op,
            final(self).prompt == old(self).prompt,
    {
        let action = get_action(self.screens[self.screens.len() - 1].selected_target(), op);
        match action {
            Some(a) => Some(self.perform(a)),
            None => None,
        }
    }

    /// Opens the prompt for `op`; for an operation on the selection, only where it
    /// applies to the selected item.
    pub fn prompt_action(&mut self, op: Op)
        requires
            old(self).wf(),
            !old(self).quit,
        ensures
            final(self).wf(),
            same_but_prompt(*old(self), *final(self)),
            if (op matches Op::Target(t) && selection_action(old(self).selected(), t) is None) {
                final(self).prompt == old(self).prompt
            } else {
                prompt_opened(final(self).prompt, op)
            },
    {
        if let Op::Target(t) = op {
            let action = get_action(self.screens[self.screens.len() - 1].selected_target(), t);
            if action.is_none() {
                return ;
            }
        }
        self.prompt.set(op);
    }

    /// Handles one operation.
    pub fn handle_op(&mut self, op: Op) -> (r: Option<Effect>)
        requires
            old(self).wf(),
            !old(self).quit,
        ensures
            final(self).wf(),
            op_done(*old(self), *final(self), op, opt_effect_view(r)),
    {
        let was_submenu = self.pending_submenu_op != SubmenuOp::Base;
        match op {
            Op::Submenu(_) => {},
            _ => {
                self.pending_submenu_op = SubmenuOp::Base;
            },
        }
        match op {
            Op::Quit => self.handle_quit(was_submenu),
            Op::Refresh => Some(Effect::Refresh),
            Op::Submenu(s) => {
                self.pending_submenu_op = s;
                None
            },
            Op::LogCurrent => Some(self.goto_log_screen(None)),
            Op::ShowRefs => Some(self.goto_refs_screen()),
            Op::CheckoutNewBranch => {
                self.prompt_action(op);
                None
            },
            Op::Commit => Some(Effect::Subscreen { cmd: commit_cmd() }),
            Op::CommitAmend => Some(Effect::Subscreen { cmd: commit_amend_cmd() }),
            Op::RebaseContinue => Some(Effect::Subscreen { cmd: rebase_continue_cmd() }),
            Op::Push => Some(self.run(push_cmd())),
            Op::Pull => Some(self.run(pull_cmd())),
            Op::FetchAll => Some(self.run(fetch_all_cmd())),
            Op::RebaseAbort => Some(self.run(rebase_abort_cmd())),
            Op::Target(t) => {
                if t == TargetOp::Discard {
                    self.prompt_action(op);
                    None
                } else {
                    self.try_dispatch_target_action(t)
                }
            },
        }
    }

    /// Handles a pressed key outside the prompt: both message buffers are emptied, then
    /// the operation the key resolved to, if any, is handled.
    pub fn handle_key_input(&mut self, op: Option<Op>) -> (r: Option<Effect>)
        requires
            old(self).wf(),
            !old(self).quit,
        ensures
            final(self).wf(),
            key_done(*old(self), *final(self), op, opt_effect_view(r)),
    {
        self.cmd_meta_buffer = None;
        self.error_buffer = None;
        assert(*self == cleared(*old(self)));
        match op {
            Some(op) => self.handle_op(op),
            None => None,
        }
    }

    /// One step of the prompt. An aborted prompt is reset. A completed branch name
    /// checks out a new branch of that name. A pending discard confirmation runs the
    /// discard on `"y"`, keeps waiting on an empty value, and is declined on anything
    /// else, with a message saying so. Every exit resets the prompt.
    pub fn update_prompt(&mut self) -> (r: Option<Effect>)
        requires
            old(self).wf(),
            !old(self).quit || old(self).prompt.pending_op is None,
        ensures
            final(self).wf(),
            prompt_done(*old(self), *final(self), opt_effect_view(r)),
    {
        if self.prompt.status == PromptStatus::Aborted {
            self.prompt.reset();
            return None;
        }
        match self.prompt.pending_op {
            Some(Op::CheckoutNewBranch) => {
                if self.prompt.status == PromptStatus::Done {
                    let cmd = checkout_new_branch_cmd(self.prompt.value.as_str());
                    let e = self.run(cmd);
                    self.prompt.reset();
                    Some(e)
                } else {
                    None
                }
            },
            Some(Op::Target(TargetOp::Discard)) => {
                if self.prompt.status == PromptStatus::Pending {
                    let yes = "y".to_owned();
                    if self.prompt.value == yes {
                        let r = self.try_dispatch_target_action(TargetOp::Discard);
                        self.prompt.reset();
                        r
                    } else if self.prompt.value.as_str().is_empty() {
                        None
                    } else {
                        self.error_buffer = Some(ErrorBuffer("Target(Discard) aborted".to_owned()));
                        self.prompt.reset();
                        None
                    }
                } else {
                    None
                }
            },
            _ => None,
        }
    }

    /// Records an error that an effect ran into, for the user to see.
    pub fn report_error(&mut self, message: String)
        ensures
            final(self).error_buffer == Some(ErrorBuffer(message)),
            final(self).quit == old(self).quit,
            final(self).screens == old(self).screens,
            final(self).pending_submenu_op == old(self).pending_submenu_op,
            final(self).cmd_meta_buffer == old(self).cmd_meta_buffer,
            final(self).prompt == old(self).prompt,
    {
        self.error_buffer = Some(ErrorBuffer(message));
    }

    /// Handles one input event, then takes one step of the prompt; returns the work
    /// for the event loop, in order.
    pub fn update(&mut self, event: Event) -> (r: Vec<Effect>)
        requires
            old(self).wf(),
            !old(self).quit,
        ensures
            final(self).wf(),
            exists|mid: State, r1: Option<EffectV>, r2: Option<EffectV>|
                #![trigger event_done(*old(self), mid, event, r1), prompt_done(mid, *final(self), r2)]
                event_done(*old(self), mid, event, r1) && prompt_done(mid, *final(self), r2)
                    && effects_view(r@) == opt_seq(r1) + opt_seq(r2),
    {
        let ghost ev = event;
        let mut effects: Vec<Effect> = Vec::new();
        match event {
            Event::Resize(w, h) => self.resize(w, h),
            Event::Key { press, op } => {
                if self.prompt.focused {
                } else if press {
                    if let Some(e) = self.handle_key_input(op) {
                        effects.push(e);
                    }
                }
            },
            Event::PromptInput { status, value } => self.prompt.input(status, value),
            Event::Other => {},
        }
        let ghost mid = *self;
        let ghost r1: Option<EffectV> = if effects@.len() > 0 {
            Some(effects@[0]@)
        } else {
            None
        };
        assert(event_done(*old(self), mid, ev, r1));
        let ghost before = effects@;
        let second = self.update_prompt();
        let ghost r2 = opt_effect_view(second);
        if let Some(e) = second {
            effects.push(e);
        }
        assert(effects_view(effects@) =~= opt_seq(r1) + opt_seq(r2));
        effects
    }
}

} // verus!
