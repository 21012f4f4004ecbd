use vstd::prelude::*;

verus! {

/// Failure of one stage of the assistant.
#[derive(Clone, Debug, PartialEq, Eq)]
pub enum AssistantError {
    /// The completion or embedding capability failed.
    Backend(String),
    /// A processor of the pipeline rejected its input.
    Processor(String),
    /// The detector has no intent to choose from.
    NoIntentFound,
    /// No route matches the detected intent and no default is set.
    NoRouteFound,
}

impl AssistantError {
    /// A human-readable description of the failure.
    pub fn message(&self) -> (r: String)
        ensures
            self matches AssistantError::Backend(m) ==> r@ == m@,
            self matches AssistantError::Processor(m) ==> r@ == m@,
            self is NoIntentFound ==> r@ == "No intent detected"@,
            self is NoRouteFound ==> r@ == "No route found"@,
    {
        match self {
            AssistantError::Backend(m) => String::from_str(m.as_str()),
            AssistantError::Processor(m) => String::from_str(m.as_str()),
            AssistantError::NoIntentFound => String::from_str("No intent detected"),
            AssistantError::NoRouteFound => String::from_str("No route found"),
        }
    }
}

/// The view of a textual result: the text as characters, the error as it is.
pub open spec fn result_view(r: Result<String, AssistantError>) -> Result<Seq<char>, AssistantError> {
    match r {
        Ok(s) => Ok(s@),
        Err(e) => Err(e),
    }
}

} // verus!
