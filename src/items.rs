use vstd::prelude::*;
use crate::git::{
    GitCmd, checkout_file_cmd, checkout_ref_cmd, commit_fixup_cmd, discard_unstaged_patch_cmd,
    rebase_autosquash_cmd, rebase_interactive_cmd, stage_file_cmd, stage_patch_cmd,
    unstage_file_cmd, unstage_patch_cmd,
};
use crate::ops::TargetOp;

verus! {

/// What a selectable item stands for.
#[derive(Clone, Debug, PartialEq, Eq)]
pub enum TargetData {
    /// A path of the working tree.
    File(String),
    /// One hunk, as a patch that `git apply` accepts.
    Hunk(Vec<u8>),
    /// A commit, by reference.
    Commit(String),
    /// A local branch, by name.
    Branch(String),
}

/// A concrete unit of work for a selected item.
#[derive(Debug, PartialEq, Eq)]
pub enum Action {
    /// Open the commit-show view on this reference.
    Show(String),
    /// Run the command with its output captured, feeding it the bytes on its input.
    Run { cmd: GitCmd, input: Vec<u8> },
    /// Hand the terminal to the command until it exits.
    Subscreen { cmd: GitCmd },
}

/// The mathematical value of an action.
pub enum ActionV {
    Show(Seq<char>),
    Run(Seq<Seq<char>>, Seq<u8>),
    Subscreen(Seq<Seq<char>>),
}

impl View for Action {
    type V = ActionV;

    open spec fn view(&self) -> ActionV {
        match self {
            Action::Show(r) => ActionV::Show(r@),
            Action::Run { cmd, input } => ActionV::Run(cmd@, input@),
            Action::Subscreen { cmd } => ActionV::Subscreen(cmd@),
        }
    }
}

pub open spec fn opt_action_view(a: Option<Action>) -> Option<ActionV> {
    match a {
        Some(a) => Some(a@),
        None => None,
    }
}

/// The action that an operation means for a selected item, or `None` where the
/// operation does not apply to that kind of item.
pub open spec fn action_spec(t: TargetData, op: TargetOp) -> Option<ActionV> {
    match (t, op) {
        (TargetData::Commit(r), TargetOp::Show) => Some(ActionV::Show(r@)),
        (TargetData::File(f), TargetOp::Stage) => Some(ActionV::Run(seq!["add"@, f@], seq![])),
        (TargetData::Hunk(p), TargetOp::Stage) => Some(
            ActionV::Run(seq!["apply"@, "--cached"@], p@),
        ),
        (TargetData::File(f), TargetOp::Unstage) => Some(
            ActionV::Run(seq!["restore"@, "--staged"@, f@], seq![]),
        ),
        (TargetData::Hunk(p), TargetOp::Unstage) => Some(
            ActionV::Run(seq!["apply"@, "--cached"@, "--reverse"@], p@),
        ),
        (TargetData::File(f), TargetOp::Discard) => Some(
            ActionV::Run(seq!["checkout"@, "--"@, f@], seq![]),
        ),
        (TargetData::Hunk(p), TargetOp::Discard) => Some(
            ActionV::Run(seq!["apply"@, "--reverse"@], p@),
        ),
        (TargetData::Commit(r), TargetOp::Checkout) => Some(
            ActionV::Run(seq!["checkout"@, r@], seq![]),
        ),
        (TargetData::Branch(b), TargetOp::Checkout) => Some(
            ActionV::Run(seq!["checkout"@, b@], seq![]),
        ),
        (TargetData::Commit(r), TargetOp::CommitFixup) => Some(
            ActionV::Subscreen(seq!["commit"@, "--fixup"@, r@]),
        ),
        (TargetData::Commit(r), TargetOp::RebaseInteractive) => Some(
            ActionV::Subscreen(seq!["rebase"@, "-i"@, "--autostash"@, r@]),
        ),
        (TargetData::Commit(r), TargetOp::RebaseAutosquash) => Some(
            ActionV::Subscreen(
                seq!["rebase"@, "-i"@, "--autosquash"@, "--keep-empty"@, "--autostash"@, r@],
            ),
        ),
        _ => None,
    }
}

/// The action for the current selection: nothing when nothing is selected.
pub open spec fn selection_action(t: Option<TargetData>, op: TargetOp) -> Option<ActionV> {
    match t {
        Some(t) => action_spec(t, op),
        None => None,
    }
}

fn copy_bytes(v: &Vec<u8>) -> (r: Vec<u8>)
    ensures
        r@ == v@,
{
    let r = v.clone();
    assert(r@ =~= v@);
    r
}

/// Decides whether `op` applies to the selected item and, if so, which action it is.
pub fn get_action(target: Option<&TargetData>, op: TargetOp) -> (r: Option<Action>)
    ensures
        opt_action_view(r) == selection_action(
            match target {
                Some(t) => Some(*t),
                None => None,
            },
            op,
        ),
{
    match target {
        None => None,
        Some(t) => match (t, op) {
            (TargetData::Commit(r), TargetOp::Show) => Some(Action::Show(r.clone())),
            (TargetData::File(f), TargetOp::Stage) => Some(
                Action::Run { cmd: stage_file_cmd(f.as_str()), input: Vec::new() },
            ),
            (TargetData::Hunk(p), TargetOp::Stage) => Some(
                Action::Run { cmd: stage_patch_cmd(), input: copy_bytes(p) },
            ),
            (TargetData::File(f), TargetOp::Unstage) => Some(
                Action::Run { cmd: unstage_file_cmd(f.as_str()), input: Vec::new() },
            ),
            (TargetData::Hunk(p), TargetOp::Unstage) => Some(
                Action::Run { cmd: unstage_patch_cmd(), input: copy_bytes(p) },
            ),
            (TargetData::File(f), TargetOp::Discard) => Some(
                Action::Run { cmd: checkout_file_cmd(f.as_str()), input: Vec::new() },
            ),
            (TargetData::Hunk(p), TargetOp::Discard) => Some(
                Action::Run { cmd: discard_unstaged_patch_cmd(), input: copy_bytes(p) },
            ),
            (TargetData::Commit(r), TargetOp::Checkout) => Some(
                Action::Run { cmd: checkout_ref_cmd(r.as_str()), input: Vec::new() },
            ),
            (TargetData::Branch(b), TargetOp::Checkout) => Some(
                Action::Run { cmd: checkout_ref_cmd(b.as_str()), input: Vec::new() },
            ),
            (TargetData::Commit(r), TargetOp::CommitFixup) => Some(
                Action::Subscreen { cmd: commit_fixup_cmd(r.as_str()) },
            ),
            (TargetData::Commit(r), TargetOp::RebaseInteractive) => Some(
                Action::Subscreen { cmd: rebase_interactive_cmd(r.as_str()) },
            ),
            (TargetData::Commit(r), TargetOp::RebaseAutosquash) => Some(
                Action::Subscreen { cmd: rebase_autosquash_cmd(r.as_str()) },
            ),
            _ => None,
        },
    }
}

} // verus!
