use std::cell::RefCell;
use std::rc::Rc;

use assistant::error::AssistantError;
use assistant::intent_detector::{IntentDetector, KeywordIntentDetector, ZeroShotIntent};
use assistant::intent_router::IntentRouter;
use assistant::model_traits::Responder;
use assistant::text::Chars;

/// Always detects the same label, or fails.
struct FixedDetector {
    label: Option<&'static str>,
}

impl IntentDetector for FixedDetector {
    fn detected(&self, _text: Chars) -> Result<Chars, AssistantError> {
        unreachable!()
    }

    fn detect_intent(&self, _text: &str) -> Result<String, AssistantError> {
        match self.label {
            Some(l) => Ok(l.to_string()),
            None => Err(AssistantError::Backend("embedding failed".to_string())),
        }
    }
}

/// Answers with its name and logs every input it is given.
struct Named {
    name: &'static str,
    log: Rc<RefCell<Vec<String>>>,
}

impl Responder for Named {
    fn answered(&self, _input: Chars, _after: Self, _r: Result<String, AssistantError>) -> bool {
        unreachable!()
    }

    fn respond(&mut self, input: &str) -> Result<String, AssistantError> {
        self.log.borrow_mut().push(format!("{}:{}", self.name, input));
        Ok(format!("{} says {}", self.name, input))
    }
}

fn named(name: &'static str, log: &Rc<RefCell<Vec<String>>>) -> Named {
    Named { name, log: log.clone() }
}

#[test]
fn unmatched_intent_goes_to_default() {
    let log = Rc::new(RefCell::new(Vec::new()));
    let mut router = IntentRouter::new(FixedDetector { label: Some("B") });
    router.add_route("A".to_string(), named("RespA", &log));
    router.set_default_route(named("RespDefault", &log));
    assert_eq!(router.route("hi").unwrap(), "RespDefault says hi");
    assert_eq!(log.borrow().as_slice(), ["RespDefault:hi".to_string()]);
}

#[test]
fn unmatched_intent_without_default_fails() {
    let log = Rc::new(RefCell::new(Vec::new()));
    let mut router = IntentRouter::new(FixedDetector { label: Some("B") });
    router.add_route("A".to_string(), named("RespA", &log));
    assert_eq!(router.route("hi"), Err(AssistantError::NoRouteFound));
    assert!(log.borrow().is_empty());
}

#[test]
fn matched_intent_goes_to_its_route() {
    let log = Rc::new(RefCell::new(Vec::new()));
    let mut router = IntentRouter::new(FixedDetector { label: Some("A") });
    router.add_route("A".to_string(), named("RespA", &log));
    router.set_default_route(named("RespDefault", &log));
    assert_eq!(router.route("yo").unwrap(), "RespA says yo");
    assert_eq!(log.borrow().as_slice(), ["RespA:yo".to_string()]);
}

#[test]
fn detection_failure_invokes_nothing() {
    let log = Rc::new(RefCell::new(Vec::new()));
    let mut router = IntentRouter::new(FixedDetector { label: None });
    router.add_route("A".to_string(), named("RespA", &log));
    router.set_default_route(named("RespDefault", &log));
    assert_eq!(router.route("x"), Err(AssistantError::Backend("embedding failed".to_string())));
    assert!(log.borrow().is_empty());
}

#[test]
fn empty_catalogue_fails_routing() {
    let log = Rc::new(RefCell::new(Vec::new()));
    let mut router = IntentRouter::new(KeywordIntentDetector::new(Vec::new()));
    router.set_default_route(named("RespDefault", &log));
    assert_eq!(router.route("x"), Err(AssistantError::NoIntentFound));
    assert!(log.borrow().is_empty());
}

#[test]
fn add_route_replaces_existing_label() {
    let log = Rc::new(RefCell::new(Vec::new()));
    let mut router = IntentRouter::new(FixedDetector { label: Some("A") });
    router.add_route("A".to_string(), named("Old", &log));
    router.add_route("A".to_string(), named("New", &log));
    assert_eq!(router.route("q").unwrap(), "New says q");
}

#[test]
fn dispatch_by_label() {
    let log = Rc::new(RefCell::new(Vec::new()));
    let mut router = IntentRouter::new(FixedDetector { label: None });
    router.add_route("x".to_string(), named("X", &log));
    router.add_route("y".to_string(), named("Y", &log));
    assert_eq!(router.dispatch("y", "in").unwrap(), "Y says in");
    assert_eq!(router.dispatch("z", "in"), Err(AssistantError::NoRouteFound));
}

#[test]
fn router_with_keyword_detector() {
    let log = Rc::new(RefCell::new(Vec::new()));
    let detector = KeywordIntentDetector::new(vec![
        ZeroShotIntent::new("greet", vec!["hello".to_string()]),
        ZeroShotIntent::new("leave", vec!["bye".to_string()]),
    ]);
    let mut router = IntentRouter::new(detector);
    router.add_route("leave".to_string(), named("Leaver", &log));
    router.set_default_route(named("Chat", &log));
    assert_eq!(router.route("ok bye").unwrap(), "Leaver says ok bye");
    assert_eq!(router.route("hello").unwrap(), "Chat says hello");
}

#[test]
fn routers_compose() {
    let log = Rc::new(RefCell::new(Vec::new()));
    let mut inner = IntentRouter::new(FixedDetector { label: Some("deep") });
    inner.add_route("deep".to_string(), named("Deep", &log));
    let mut outer = IntentRouter::new(FixedDetector { label: Some("inner") });
    outer.add_route("inner".to_string(), inner);
    assert_eq!(outer.respond("ping").unwrap(), "Deep says ping");
}
