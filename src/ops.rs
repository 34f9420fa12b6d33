use vstd::prelude::*;

verus! {

/// Keymap contexts. `Base` is the context with no submenu open.
#[derive(Clone, Copy, Debug, PartialEq, Eq, Structural)]
pub enum SubmenuOp {
    Base,
    Help,
    Branch,
    Commit,
    Fetch,
    Log,
    Pull,
    Push,
    Rebase,
}

/// Operations that act on the item selected in the active view.
#[derive(Clone, Copy, Debug, PartialEq, Eq, Structural)]
pub enum TargetOp {
    Show,
    Stage,
    Unstage,
    Discard,
    Checkout,
    CommitFixup,
    RebaseInteractive,
    RebaseAutosquash,
}

/// A user intent, as resolved from a key in a keymap context.
#[derive(Clone, Copy, Debug, PartialEq, Eq, Structural)]
pub enum Op {
    Quit,
    Refresh,
    Submenu(SubmenuOp),
    LogCurrent,
    ShowRefs,
    CheckoutNewBranch,
    Commit,
    CommitAmend,
    Push,
    Pull,
    FetchAll,
    RebaseContinue,
    RebaseAbort,
    Target(TargetOp),
}

/// The keymap context in which a key is resolved: the help overlay is transparent,
/// so keys shown under it resolve in the base context.
pub open spec fn key_context_of(pending: SubmenuOp) -> SubmenuOp {
    if pending == SubmenuOp::Help {
        SubmenuOp::Base
    } else {
        pending
    }
}

pub fn key_context(pending: SubmenuOp) -> (r: SubmenuOp)
    ensures
        r == key_context_of(pending),
{
    if pending == SubmenuOp::Help {
        SubmenuOp::Base
    } else {
        pending
    }
}

} // verus!
