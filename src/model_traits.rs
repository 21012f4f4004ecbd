use vstd::prelude::*;

use crate::error::{result_view, AssistantError};

verus! {

/// A unit that maps an input utterance to an output utterance, possibly
/// with internal state.
pub trait Responder: Sized {
    /// `after` and `r` are a state and a result that answering `input` from
    /// `self` may give.
    spec fn answered(&self, input: Seq<char>, after: Self, r: Result<String, AssistantError>) -> bool;

    fn respond(&mut self, input: &str) -> (r: Result<String, AssistantError>)
        ensures
            old(self).answered(input@, *final(self), r),
    ;
}

/// A text-completion capability, such as a remote language model.
pub trait CompletionModel {
    fn complete(&self, prompt: &str) -> Result<String, AssistantError>;
}

/// A text transform applied to a model's raw output; it may reject its
/// input.  What it returns depends on its input alone.
pub trait Processor {
    /// What processing `text` gives.
    spec fn spec_process(&self, text: Seq<char>) -> Result<Seq<char>, AssistantError>;

    fn process(&self, text: &str) -> (r: Result<String, AssistantError>)
        ensures
            result_view(r) == self.spec_process(text@),
    ;
}

} // verus!
