use vstd::prelude::*;
use crate::ops::Op;

verus! {

/// Lifecycle of the text-input widget.
#[derive(Clone, Copy, Debug, PartialEq, Eq, Structural)]
pub enum PromptStatus {
    Pending,
    Aborted,
    Done,
}

/// The single interactive input: the operation it collects input for, and the
/// input widget's state.
#[derive(Debug, PartialEq, Eq)]
pub struct Prompt {
    pub pending_op: Option<Op>,
    pub status: PromptStatus,
    pub value: String,
    pub focused: bool,
}

impl Prompt {
    /// No operation is pending and the widget is blank and unfocused.
    pub open spec fn is_idle(&self) -> bool {
        &&& self.pending_op is None
        &&& self.status == PromptStatus::Pending
        &&& self.value@.len() == 0
        &&& !self.focused
    }

    /// A prompt without a pending operation holds nothing that could drive a change;
    /// one with a pending operation has the input focus.
    pub open spec fn wf(&self) -> bool {
        &&& self.pending_op is None ==> self.is_idle()
        &&& self.pending_op is Some ==> self.focused
    }

    pub fn new() -> (r: Prompt)
        ensures
            r.is_idle(),
            r.wf(),
    {
        Prompt { pending_op: None, status: PromptStatus::Pending, value: String::new(), focused: false }
    }

    /// Opens the prompt for `op`: focused, blank, collecting input.
    pub fn set(&mut self, op: Op)
        ensures
            final(self).pending_op == Some(op),
            final(self).status == PromptStatus::Pending,
            final(self).value@.len() == 0,
            final(self).focused,
            final(self).wf(),
    {
        self.pending_op = Some(op);
        self.status = PromptStatus::Pending;
        self.value = String::new();
        self.focused = true;
    }

    /// Closes the prompt, discarding the pending operation and the widget's state.
    pub fn reset(&mut self)
        ensures
            final(self).is_idle(),
            final(self).wf(),
    {
        self.pending_op = None;
        self.status = PromptStatus::Pending;
        self.value = String::new();
        self.focused = false;
    }

    /// Records what the widget holds after it took a key; an idle prompt takes no input.
    pub fn input(&mut self, status: PromptStatus, value: String)
        requires
            old(self).wf(),
        ensures
            final(self).wf(),
            final(self).pending_op == old(self).pending_op,
            final(self).focused == old(self).focused,
            old(self).pending_op is Some ==> final(self).status == status && final(self).value
                == value,
            old(self).pending_op is None ==> final(self).status == old(self).status
                && final(self).value == old(self).value,
    {
        if self.pending_op.is_some() {
            self.status = status;
            self.value = value;
        }
    }
}

} // verus!
