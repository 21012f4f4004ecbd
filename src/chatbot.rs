use vstd::prelude::*;

use crate::error::{result_view, AssistantError};
use crate::model_traits::{CompletionModel, Processor, Responder};
use crate::pipeline::{pipeline_result, run_pipeline};
use crate::text::{join_lines, join_with_newlines, lines_view, option_view, trim_text, trimmed};

verus! {

/// The text of an optional template part; nothing when it is absent.
pub open spec fn part_text(p: Option<Seq<char>>) -> Seq<char> {
    match p {
        Some(s) => s,
        None => Seq::empty(),
    }
}

/// The prompt sent for `input` after the transcript `t`: the transcript and
/// the input joined by newlines (the trimmed input alone when the transcript
/// is empty), with the prefix before it and the suffix after it.
pub open spec fn assemble_prompt(
    t: Seq<Seq<char>>,
    input: Seq<char>,
    prefix: Option<Seq<char>>,
    suffix: Option<Seq<char>>,
) -> Seq<char> {
    let body = if t.len() == 0 {
        trimmed(input)
    } else {
        join_lines(t) + seq!['\n'] + input
    };
    part_text(prefix) + body + part_text(suffix)
}

/// The last `limit` entries of `t`, or all of them when there are fewer.
pub open spec fn keep_last(t: Seq<Seq<char>>, limit: nat) -> Seq<Seq<char>> {
    if t.len() > limit {
        t.subrange(t.len() - limit, t.len() as int)
    } else {
        t
    }
}

/// What a turn returns, given what the completion capability returned:
/// its error unchanged, else the pipeline's result on the raw completion.
pub open spec fn turn_output(
    stages: Seq<Box<dyn Processor>>,
    completion: Result<Seq<char>, AssistantError>,
) -> Result<Seq<char>, AssistantError> {
    match completion {
        Ok(raw) => pipeline_result(stages, raw),
        Err(e) => Err(e),
    }
}

/// The transcript after a turn: the prompt and the raw completion are
/// appended, and the oldest entries evicted beyond `limit`, only when the
/// whole turn succeeds; otherwise the transcript stays as it was.
pub open spec fn turn_transcript(
    t: Seq<Seq<char>>,
    limit: nat,
    prompt: Seq<char>,
    completion: Result<Seq<char>, AssistantError>,
    stages: Seq<Box<dyn Processor>>,
) -> Seq<Seq<char>> {
    match completion {
        Ok(raw) => if pipeline_result(stages, raw) is Ok {
            keep_last(t.push(prompt).push(raw), limit)
        } else {
            t
        },
        Err(_) => t,
    }
}

/// The entries that the exchanges `x` add to a transcript, in order: each
/// prompt followed by its response.
pub open spec fn exchange_entries(x: Seq<(Seq<char>, Seq<char>)>) -> Seq<Seq<char>>
    decreases x.len(),
{
    if x.len() == 0 {
        Seq::empty()
    } else {
        exchange_entries(x.drop_last()).push(x.last().0).push(x.last().1)
    }
}

/// The transcript after the successful turns `x`, from an empty one: each
/// turn appends its exchange and then keeps the last `limit` entries.
pub open spec fn transcript_after(x: Seq<(Seq<char>, Seq<char>)>, limit: nat) -> Seq<Seq<char>>
    decreases x.len(),
{
    if x.len() == 0 {
        Seq::empty()
    } else {
        keep_last(transcript_after(x.drop_last(), limit).push(x.last().0).push(x.last().1), limit)
    }
}

proof fn lemma_keep_last_twice(t: Seq<Seq<char>>, a: Seq<char>, b: Seq<char>, limit: nat)
    ensures
        keep_last(keep_last(t, limit).push(a).push(b), limit) == keep_last(t.push(a).push(b), limit),
{
    let k = keep_last(t, limit);
    if t.len() > limit {
        assert(keep_last(k.push(a).push(b), limit) =~= keep_last(t.push(a).push(b), limit));
    }
}

/// After any sequence of successful turns the transcript holds at most
/// `limit` entries, and those are exactly the most recent `limit` entries
/// of all exchanges (all of them while there are fewer).
pub proof fn lemma_transcript_bound(x: Seq<(Seq<char>, Seq<char>)>, limit: nat)
    ensures
        transcript_after(x, limit).len() <= limit,
        transcript_after(x, limit) == keep_last(exchange_entries(x), limit),
    decreases x.len(),
{
    if x.len() > 0 {
        lemma_transcript_bound(x.drop_last(), limit);
        lemma_keep_last_twice(exchange_entries(x.drop_last()), x.last().0, x.last().1, limit);
    }
}

/// Staged configuration of a `Chatbot`.
pub struct ChatbotBuilder<T: CompletionModel> {
    model: T,
    conversation_limit: usize,
    prefix: Option<String>,
    suffix: Option<String>,
    preprocessors: Vec<Box<dyn Processor>>,
    postprocessors: Vec<Box<dyn Processor>>,
}

impl<T: CompletionModel> ChatbotBuilder<T> {
    pub closed spec fn model(&self) -> T {
        self.model
    }

    pub closed spec fn limit(&self) -> nat {
        self.conversation_limit as nat
    }

    pub closed spec fn prefix_text(&self) -> Option<Seq<char>> {
        option_view(self.prefix)
    }

    pub closed spec fn suffix_text(&self) -> Option<Seq<char>> {
        option_view(self.suffix)
    }

    pub closed spec fn preprocessing(&self) -> Seq<Box<dyn Processor>> {
        self.preprocessors@
    }

    pub closed spec fn postprocessing(&self) -> Seq<Box<dyn Processor>> {
        self.postprocessors@
    }

    /// A builder for `model` with a limit of ten entries, no template and
    /// no processors.
    pub fn new(model: T) -> (r: Self)
        ensures
            r.model() == model,
            r.limit() == 10,
            r.prefix_text() is None,
            r.suffix_text() is None,
            r.preprocessing() == Seq::<Box<dyn Processor>>::empty(),
            r.postprocessing() == Seq::<Box<dyn Processor>>::empty(),
    {
        ChatbotBuilder {
            model,
            conversation_limit: 10,
            prefix: None,
            suffix: None,
            preprocessors: Vec::new(),
            postprocessors: Vec::new(),
        }
    }

    /// Sets the number of transcript entries kept (0 keeps none).
    pub fn conversation_limit(self, limit: usize) -> (r: Self)
        ensures
            r.limit() == limit,
            r.model() == self.model(),
            r.prefix_text() == self.prefix_text(),
            r.suffix_text() == self.suffix_text(),
            r.preprocessing() == self.preprocessing(),
            r.postprocessing() == self.postprocessing(),
    {
        let mut b = self;
        b.conversation_limit = limit;
        b
    }

    /// Sets the text put before every prompt.
    pub fn prefix(self, prefix: &str) -> (r: Self)
        ensures
            r.prefix_text() == Some(prefix@),
            r.model() == self.model(),
            r.limit() == self.limit(),
            r.suffix_text() == self.suffix_text(),
            r.preprocessing() == self.preprocessing(),
            r.postprocessing() == self.postprocessing(),
    {
        let mut b = self;
        b.prefix = Some(String::from_str(prefix));
        b
    }

    /// Sets the text put after every prompt.
    pub fn suffix(self, suffix: &str) -> (r: Self)
        ensures
            r.suffix_text() == Some(suffix@),
            r.model() == self.model(),
            r.limit() == self.limit(),
            r.prefix_text() == self.prefix_text(),
            r.preprocessing() == self.preprocessing(),
            r.postprocessing() == self.postprocessing(),
    {
        let mut b = self;
        b.suffix = Some(String::from_str(suffix));
        b
    }

    /// Appends a processor to the list of preprocessors.
    pub fn add_preprocessor(self, preprocessor: Box<dyn Processor>) -> (r: Self)
        ensures
            r.preprocessing() == self.preprocessing().push(preprocessor),
            r.model() == self.model(),
            r.limit() == self.limit(),
            r.prefix_text() == self.prefix_text(),
            r.suffix_text() == self.suffix_text(),
            r.postprocessing() == self.postprocessing(),
    {
        let mut b = self;
        b.preprocessors.push(preprocessor);
        b
    }

    /// Appends a processor to the pipeline run on every completion.
    pub fn add_postprocessor(self, postprocessor: Box<dyn Processor>) -> (r: Self)
        ensures
            r.postprocessing() == self.postprocessing().push(postprocessor),
            r.model() == self.model(),
            r.limit() == self.limit(),
            r.prefix_text() == self.prefix_text(),
            r.suffix_text() == self.suffix_text(),
            r.preprocessing() == self.preprocessing(),
    {
        let mut b = self;
        b.postprocessors.push(postprocessor);
        b
    }

    /// A chatbot with this configuration and an empty transcript.
    pub fn build(self) -> (r: Chatbot<T>)
        ensures
            r.wf(),
            r.transcript() == Seq::<Seq<char>>::empty(),
            r.model() == self.model(),
            r.limit() == self.limit(),
            r.prefix_text() == self.prefix_text(),
            r.suffix_text() == self.suffix_text(),
            r.preprocessing() == self.preprocessing(),
            r.postprocessing() == self.postprocessing(),
    {
        let r = Chatbot {
            model: self.model,
            conversation: Vec::new(),
            conversation_limit: self.conversation_limit,
            prefix: self.prefix,
            suffix: self.suffix,
            preprocessors: self.preprocessors,
            postprocessors: self.postprocessors,
        };
        assert(r.transcript() =~= Seq::<Seq<char>>::empty());
        r
    }
}

/// A responder that keeps a bounded transcript, wraps each prompt in a
/// template, and runs a completion capability's output through a pipeline.
pub struct Chatbot<T: CompletionModel> {
    model: T,
    conversation: Vec<String>,
    conversation_limit: usize,
    prefix: Option<String>,
    suffix: Option<String>,
    preprocessors: Vec<Box<dyn Processor>>,
    postprocessors: Vec<Box<dyn Processor>>,
}

impl<T: CompletionModel> Chatbot<T> {
    pub closed spec fn model(&self) -> T {
        self.model
    }

    /// The retained prompts and responses, oldest first.
    pub closed spec fn transcript(&self) -> Seq<Seq<char>> {
        lines_view(self.conversation@)
    }

    pub closed spec fn limit(&self) -> nat {
        self.conversation_limit as nat
    }

    pub closed spec fn prefix_text(&self) -> Option<Seq<char>> {
        option_view(self.prefix)
    }

    pub closed spec fn suffix_text(&self) -> Option<Seq<char>> {
        option_view(self.suffix)
    }

    pub closed spec fn preprocessing(&self) -> Seq<Box<dyn Processor>> {
        self.preprocessors@
    }

    pub closed spec fn postprocessing(&self) -> Seq<Box<dyn Processor>> {
        self.postprocessors@
    }

    /// The transcript holds at most `limit` entries.
    pub open spec fn wf(&self) -> bool {
        self.transcript().len() <= self.limit()
    }

    /// The prompt that a turn on `input` sends to the completion capability.
    pub open spec fn next_prompt(&self, input: Seq<char>) -> Seq<char> {
        assemble_prompt(self.transcript(), input, self.prefix_text(), self.suffix_text())
    }

    /// `after` and `r` are what one turn on `input` may give from `self`,
    /// whatever the completion capability returned (`c`): the result of
    /// the turn on `c`, and the transcript after it.  A failed turn leaves
    /// the transcript as it was.
    pub open spec fn turned(&self, input: Seq<char>, after: Self, r: Result<String, AssistantError>) -> bool {
        &&& self.wf() ==> after.wf()
        &&& after.same_settings(self)
        &&& exists|c: Result<Seq<char>, AssistantError>|
            {
                &&& result_view(r) == turn_output(self.postprocessing(), c)
                &&& after.transcript() == turn_transcript(
                    self.transcript(),
                    self.limit(),
                    self.next_prompt(input),
                    c,
                    self.postprocessing(),
                )
            }
        &&& r is Err ==> after.transcript() == self.transcript()
    }

    /// Everything but the transcript is the same in `self` and `other`.
    pub open spec fn same_settings(&self, other: &Self) -> bool {
        &&& self.model() == other.model()
        &&& self.limit() == other.limit()
        &&& self.prefix_text() == other.prefix_text()
        &&& self.suffix_text() == other.suffix_text()
        &&& self.preprocessing() == other.preprocessing()
        &&& self.postprocessing() == other.postprocessing()
    }

    pub fn builder(model: T) -> (r: ChatbotBuilder<T>)
        ensures
            r.model() == model,
            r.limit() == 10,
            r.prefix_text() is None,
            r.suffix_text() is None,
            r.preprocessing() == Seq::<Box<dyn Processor>>::empty(),
            r.postprocessing() == Seq::<Box<dyn Processor>>::empty(),
    {
        ChatbotBuilder::new(model)
    }

    /// The retained prompts and responses, oldest first.
    pub fn conversation(&self) -> (r: &Vec<String>)
        ensures
            lines_view(r@) == self.transcript(),
    {
        &self.conversation
    }

    fn build_conversation_prompt(&self) -> (r: String)
        ensures
            r@ == join_lines(self.transcript()),
    {
        join_with_newlines(&self.conversation)
    }

    /// Replaces the text put before every prompt.
    pub fn set_prefix(&mut self, prefix: &str)
        ensures
            final(self).prefix_text() == Some(prefix@),
            final(self).transcript() == old(self).transcript(),
            final(self).model() == old(self).model(),
            final(self).limit() == old(self).limit(),
            final(self).suffix_text() == old(self).suffix_text(),
            final(self).preprocessing() == old(self).preprocessing(),
            final(self).postprocessing() == old(self).postprocessing(),
    {
        self.prefix = Some(String::from_str(prefix));
    }

    /// Replaces the text put after every prompt.
    pub fn set_suffix(&mut self, suffix: &str)
        ensures
            final(self).suffix_text() == Some(suffix@),
            final(self).transcript() == old(self).transcript(),
            final(self).model() == old(self).model(),
            final(self).limit() == old(self).limit(),
            final(self).prefix_text() == old(self).prefix_text(),
            final(self).preprocessing() == old(self).preprocessing(),
            final(self).postprocessing() == old(self).postprocessing(),
    {
        self.suffix = Some(String::from_str(suffix));
    }

    /// The prompt for `input`: transcript and input joined, then templated.
    pub fn prompt_for(&self, input: &str) -> (r: String)
        ensures
            r@ == self.next_prompt(input@),
    {
        let body = if self.conversation.len() == 0 {
            trim_text(input)
        } else {
            let mut b = self.build_conversation_prompt();
            proof {
                reveal_strlit("\n");
            }
            b.append("\n");
            b.append(input);
            b
        };
        let mut prompt = match &self.prefix {
            Some(p) => String::from_str(p.as_str()),
            None => String::new(),
        };
        prompt.append(body.as_str());
        match &self.suffix {
            Some(s) => prompt.append(s.as_str()),
            None => {},
        }
        assert(prompt@ =~= self.next_prompt(input@));
        prompt
    }

    /// Completes a turn whose prompt was `prompt` and whose completion
    /// capability returned `completion`.  An error of the capability is
    /// returned as it is; a raw output runs through the postprocessors.
    /// Only when both succeed are the prompt and the raw output appended
    /// to the transcript, which then keeps its last `limit` entries.
    pub fn finish_turn(&mut self, prompt: String, completion: Result<String, AssistantError>) -> (r: Result<String, AssistantError>)
        ensures
            old(self).wf() ==> final(self).wf(),
            final(self).same_settings(old(self)),
            result_view(r) == turn_output(old(self).postprocessing(), result_view(completion)),
            final(self).transcript() == turn_transcript(
                old(self).transcript(),
                old(self).limit(),
                prompt@,
                result_view(completion),
                old(self).postprocessing(),
            ),
    {
        match completion {
            Err(e) => Err(e),
            Ok(raw) => {
                match run_pipeline(&self.postprocessors, raw.as_str()) {
                    Err(e) => Err(e),
                    Ok(out) => {
                        let ghost t0 = self.transcript();
                        self.conversation.push(prompt);
                        self.conversation.push(raw);
                        assert(self.transcript() =~= t0.push(prompt@).push(raw@));
                        let n = self.conversation.len();
                        if n > self.conversation_limit {
                            let kept = self.conversation.split_off(n - self.conversation_limit);
                            self.conversation = kept;
                            assert(self.transcript() =~= keep_last(t0.push(prompt@).push(raw@), self.limit()));
                        }
                        Ok(out)
                    },
                }
            },
        }
    }

    /// One conversational turn on `input`.  The templated prompt goes to the
    /// completion capability once; whatever it returns, the result and the
    /// transcript are those of `finish_turn` on that prompt.  A failed turn
    /// leaves the transcript as it was.
    pub fn respond(&mut self, input: &str) -> (r: Result<String, AssistantError>)
        ensures
            old(self).turned(input@, *final(self), r),
    {
        let prompt = self.prompt_for(input);
        let completion = self.model.complete(prompt.as_str());
        let ghost c = result_view(completion);
        let r = self.finish_turn(prompt, completion);
        assert(result_view(r) == turn_output(old(self).postprocessing(), c));
        r
    }
}

impl<T: CompletionModel> Responder for Chatbot<T> {
    open spec fn answered(&self, input: Seq<char>, after: Self, r: Result<String, AssistantError>) -> bool {
        self.turned(input, after, r)
    }

    fn respond(&mut self, input: &str) -> Result<String, AssistantError> {
        Chatbot::respond(self, input)
    }
}

} // verus!
