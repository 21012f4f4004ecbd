use std::cell::RefCell;
use std::rc::Rc;

use assistant::chatbot::Chatbot;
use assistant::error::AssistantError;
use assistant::model_traits::{CompletionModel, Processor, Responder};
use assistant::pipeline::{run_pipeline, Pipeline};
use assistant::text::Chars;

struct MockCompletionModel;

impl CompletionModel for MockCompletionModel {
    fn complete(&self, prompt: &str) -> Result<String, AssistantError> {
        Ok(prompt.to_string())
    }
}

/// Echoes the prompt and records every prompt it was sent.
struct RecordingModel {
    sent: Rc<RefCell<Vec<String>>>,
}

impl CompletionModel for RecordingModel {
    fn complete(&self, prompt: &str) -> Result<String, AssistantError> {
        self.sent.borrow_mut().push(prompt.to_string());
        Ok(format!("reply to {}", prompt))
    }
}

/// Fails while its switch is on, else echoes.
struct FlakyModel {
    failing: Rc<RefCell<bool>>,
}

impl CompletionModel for FlakyModel {
    fn complete(&self, prompt: &str) -> Result<String, AssistantError> {
        if *self.failing.borrow() {
            Err(AssistantError::Backend("backend down".to_string()))
        } else {
            Ok(prompt.to_string())
        }
    }
}

/// Appends its tag, or fails when `fail` is set; counts its invocations.
struct Tagger {
    tag: &'static str,
    fail: bool,
    calls: Rc<RefCell<usize>>,
}

impl Processor for Tagger {
    fn spec_process(&self, _text: Chars) -> Result<Chars, AssistantError> {
        unreachable!()
    }

    fn process(&self, text: &str) -> Result<String, AssistantError> {
        *self.calls.borrow_mut() += 1;
        if self.fail {
            Err(AssistantError::Processor(format!("{} rejected", self.tag)))
        } else {
            Ok(format!("{}{}", text, self.tag))
        }
    }
}

fn tagger(tag: &'static str, fail: bool) -> (Box<dyn Processor>, Rc<RefCell<usize>>) {
    let calls = Rc::new(RefCell::new(0));
    (Box::new(Tagger { tag, fail, calls: calls.clone() }), calls)
}

#[test]
fn test_chatbot() {
    let mut chatbot = Chatbot::builder(MockCompletionModel).build();

    let response = chatbot.respond("Hello").unwrap();
    assert_eq!(response, "Hello");

    let response = chatbot.respond("How are you?").unwrap();
    assert_eq!(response, "Hello\nHello\nHow are you?");
}

#[test]
fn template_wraps_first_prompt() {
    let sent = Rc::new(RefCell::new(Vec::new()));
    let model = RecordingModel { sent: sent.clone() };
    let mut chatbot = Chatbot::builder(model).prefix("P:").suffix(":S").build();
    let response = chatbot.respond("hi").unwrap();
    assert_eq!(sent.borrow().as_slice(), ["P:hi:S".to_string()]);
    assert_eq!(response, "reply to P:hi:S");
    assert_eq!(chatbot.conversation(), &vec!["P:hi:S".to_string(), "reply to P:hi:S".to_string()]);
}

#[test]
fn template_wraps_whole_conversation() {
    let sent = Rc::new(RefCell::new(Vec::new()));
    let model = RecordingModel { sent: sent.clone() };
    let mut chatbot = Chatbot::builder(model).prefix("<").suffix(">").build();
    chatbot.respond("a").unwrap();
    chatbot.respond("b").unwrap();
    assert_eq!(sent.borrow()[1], "<<a>\nreply to <a>\nb>");
}

#[test]
fn first_input_is_trimmed() {
    let chatbot = Chatbot::builder(MockCompletionModel).build();
    assert_eq!(chatbot.prompt_for("  hello world \n"), "hello world");
}

#[test]
fn later_input_is_not_trimmed() {
    let mut chatbot = Chatbot::builder(MockCompletionModel).build();
    chatbot.respond("x").unwrap();
    assert_eq!(chatbot.prompt_for(" y "), "x\nx\n y ");
}

#[test]
fn set_prefix_and_suffix_replace_template() {
    let mut chatbot = Chatbot::builder(MockCompletionModel).prefix("old").build();
    chatbot.set_prefix("[");
    chatbot.set_suffix("]");
    assert_eq!(chatbot.prompt_for("q"), "[q]");
}

#[test]
fn transcript_keeps_most_recent_entries() {
    let mut chatbot = Chatbot::builder(MockCompletionModel).conversation_limit(3).build();
    chatbot.respond("a").unwrap();
    assert_eq!(chatbot.conversation().len(), 2);
    chatbot.respond("b").unwrap();
    assert_eq!(
        chatbot.conversation(),
        &vec!["a".to_string(), "a\na\nb".to_string(), "a\na\nb".to_string()]
    );
    chatbot.respond("c").unwrap();
    let expected_last = "a\na\na\nb\na\na\nb\nc".to_string();
    assert_eq!(
        chatbot.conversation(),
        &vec!["a\na\nb".to_string(), expected_last.clone(), expected_last]
    );
}

#[test]
fn default_limit_is_ten() {
    let mut chatbot = Chatbot::builder(MockCompletionModel).build();
    for i in 0..8 {
        chatbot.respond(&format!("m{}", i)).unwrap();
        assert!(chatbot.conversation().len() <= 10);
    }
    assert_eq!(chatbot.conversation().len(), 10);
}

#[test]
fn zero_limit_retains_nothing() {
    let sent = Rc::new(RefCell::new(Vec::new()));
    let model = RecordingModel { sent: sent.clone() };
    let mut chatbot = Chatbot::builder(model).conversation_limit(0).build();
    chatbot.respond(" one ").unwrap();
    assert!(chatbot.conversation().is_empty());
    chatbot.respond("two").unwrap();
    assert!(chatbot.conversation().is_empty());
    assert_eq!(sent.borrow().as_slice(), ["one".to_string(), "two".to_string()]);
}

#[test]
fn failed_completion_leaves_transcript() {
    let failing = Rc::new(RefCell::new(false));
    let model = FlakyModel { failing: failing.clone() };
    let mut chatbot = Chatbot::builder(model).build();
    chatbot.respond("first").unwrap();
    let before = chatbot.conversation().clone();
    *failing.borrow_mut() = true;
    let result = chatbot.respond("second");
    assert_eq!(result, Err(AssistantError::Backend("backend down".to_string())));
    assert_eq!(chatbot.conversation(), &before);
}

#[test]
fn postprocessors_apply_in_order() {
    let (a, _) = tagger("-a", false);
    let (b, _) = tagger("-b", false);
    let mut chatbot = Chatbot::builder(MockCompletionModel).add_postprocessor(a).add_postprocessor(b).build();
    assert_eq!(chatbot.respond("x").unwrap(), "x-a-b");
    // the transcript keeps the raw completion
    assert_eq!(chatbot.conversation(), &vec!["x".to_string(), "x".to_string()]);
}

#[test]
fn failing_postprocessor_short_circuits() {
    let (first, first_calls) = tagger("-1", false);
    let (second, second_calls) = tagger("-2", true);
    let (third, third_calls) = tagger("-3", false);
    let mut chatbot = Chatbot::builder(MockCompletionModel)
        .add_postprocessor(first)
        .add_postprocessor(second)
        .add_postprocessor(third)
        .build();
    let result = chatbot.respond("x");
    assert_eq!(result, Err(AssistantError::Processor("-2 rejected".to_string())));
    assert_eq!(*first_calls.borrow(), 1);
    assert_eq!(*second_calls.borrow(), 1);
    assert_eq!(*third_calls.borrow(), 0);
    assert!(chatbot.conversation().is_empty());
}

#[test]
fn preprocessors_are_stored_not_applied() {
    let (pre, pre_calls) = tagger("-p", false);
    let mut chatbot = Chatbot::builder(MockCompletionModel).add_preprocessor(pre).build();
    assert_eq!(chatbot.respond("x").unwrap(), "x");
    assert_eq!(*pre_calls.borrow(), 0);
}

#[test]
fn finish_turn_passes_backend_error() {
    let mut chatbot = Chatbot::builder(MockCompletionModel).build();
    let err = AssistantError::Backend("timeout".to_string());
    let result = chatbot.finish_turn("p".to_string(), Err(err.clone()));
    assert_eq!(result, Err(err));
    assert!(chatbot.conversation().is_empty());
}

#[test]
fn finish_turn_records_raw_output() {
    let (a, _) = tagger("!", false);
    let mut chatbot = Chatbot::builder(MockCompletionModel).add_postprocessor(a).build();
    let result = chatbot.finish_turn("p".to_string(), Ok("raw".to_string()));
    assert_eq!(result, Ok("raw!".to_string()));
    assert_eq!(chatbot.conversation(), &vec!["p".to_string(), "raw".to_string()]);
}

fn answer<R: Responder>(responder: &mut R, input: &str) -> Result<String, AssistantError> {
    responder.respond(input)
}

#[test]
fn chatbot_as_responder() {
    let mut chatbot = Chatbot::builder(MockCompletionModel).build();
    assert_eq!(answer(&mut chatbot, "hey").unwrap(), "hey");
}

#[test]
fn pipeline_runs_stages() {
    let mut pipeline = Pipeline::new();
    assert_eq!(pipeline.len(), 0);
    assert_eq!(pipeline.run("x"), Ok("x".to_string()));
    let (a, _) = tagger("1", false);
    let (b, _) = tagger("2", false);
    pipeline.add_stage(a);
    pipeline.add_stage(b);
    assert_eq!(pipeline.len(), 2);
    assert_eq!(pipeline.run("x"), Ok("x12".to_string()));
}

#[test]
fn run_pipeline_stops_at_first_failure() {
    let (a, _) = tagger("1", true);
    let (b, b_calls) = tagger("2", false);
    let stages = vec![a, b];
    assert_eq!(run_pipeline(&stages, "x"), Err(AssistantError::Processor("1 rejected".to_string())));
    assert_eq!(*b_calls.borrow(), 0);
}

#[test]
fn error_messages() {
    assert_eq!(AssistantError::NoIntentFound.message(), "No intent detected");
    assert_eq!(AssistantError::NoRouteFound.message(), "No route found");
    assert_eq!(AssistantError::Backend("b".to_string()).message(), "b");
}
