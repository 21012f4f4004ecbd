use vstd::prelude::*;

use crate::error::{result_view, AssistantError};
use crate::model_traits::Processor;

verus! {

/// What running `stages` left to right on `input` gives: each stage gets
/// the output of the one before; the first error is passed on unchanged
/// and the stages after it do not run.
pub open spec fn pipeline_result(stages: Seq<Box<dyn Processor>>, input: Seq<char>) -> Result<Seq<char>, AssistantError>
    decreases stages.len(),
{
    if stages.len() == 0 {
        Ok(input)
    } else {
        match stages[0].spec_process(input) {
            Ok(next) => pipeline_result(stages.drop_first(), next),
            Err(e) => Err(e),
        }
    }
}

/// Once the first `k` stages have failed, the stages after them change
/// nothing: the whole pipeline fails with the same error.
pub proof fn lemma_failure_short_circuits(stages: Seq<Box<dyn Processor>>, k: int, input: Seq<char>)
    requires
        0 <= k <= stages.len(),
        pipeline_result(stages.take(k), input) is Err,
    ensures
        pipeline_result(stages, input) == pipeline_result(stages.take(k), input),
    decreases k,
{
    if k > 0 {
        assert(stages.take(k).drop_first() =~= stages.drop_first().take(k - 1));
        assert(stages.take(k)[0] == stages[0]);
        match stages[0].spec_process(input) {
            Ok(next) => {
                lemma_failure_short_circuits(stages.drop_first(), k - 1, next);
            },
            Err(e) => {},
        }
    }
}

/// An ordered sequence of text transforms, applied left to right.
pub struct Pipeline {
    stages: Vec<Box<dyn Processor>>,
}

impl Pipeline {
    /// The stages, in the order in which they run.
    pub closed spec fn stages(&self) -> Seq<Box<dyn Processor>> {
        self.stages@
    }

    /// A pipeline without stages.
    pub fn new() -> (r: Pipeline)
        ensures
            r.stages() == Seq::<Box<dyn Processor>>::empty(),
    {
        Pipeline { stages: Vec::new() }
    }

    /// Appends `stage` after the present stages.
    pub fn add_stage(&mut self, stage: Box<dyn Processor>)
        ensures
            final(self).stages() == old(self).stages().push(stage),
    {
        let mut stages: Vec<Box<dyn Processor>> = Vec::new();
        std::mem::swap(&mut stages, &mut self.stages);
        stages.push(stage);
        self.stages = stages;
    }

    /// The number of stages.
    pub fn len(&self) -> (r: usize)
        ensures
            r == self.stages().len(),
    {
        self.stages.len()
    }

    /// Runs the stages on `input` in order; see `run_pipeline`.
    pub fn run(&self, input: &str) -> (r: Result<String, AssistantError>)
        ensures
            result_view(r) == pipeline_result(self.stages(), input@),
    {
        run_pipeline(&self.stages, input)
    }
}

/// Runs `stages` on `input` in order, each on the output of the one before;
/// the last output is the result.  The first stage that fails stops the
/// run, and its error is returned; the stages after it are not invoked.
pub fn run_pipeline(stages: &Vec<Box<dyn Processor>>, input: &str) -> (r: Result<String, AssistantError>)
    ensures
        result_view(r) == pipeline_result(stages@, input@),
{
    let mut current = String::from_str(input);
    let mut i: usize = 0;
    assert(stages@.skip(0) =~= stages@);
    while i < stages.len()
        invariant
            i <= stages@.len(),
            pipeline_result(stages@, input@) == pipeline_result(stages@.skip(i as int), current@),
        decreases stages@.len() - i,
    {
        let ghost rest = stages@.skip(i as int);
        assert(rest.drop_first() =~= stages@.skip(i + 1));
        match stages[i].process(current.as_str()) {
            Ok(next) => {
                current = next;
            },
            Err(e) => {
                return Err(e);
            },
        }
        i = i + 1;
    }
    assert(stages@.skip(i as int) =~= Seq::<Box<dyn Processor>>::empty());
    Ok(current)
}

} // verus!
