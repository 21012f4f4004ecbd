use assistant::error::AssistantError;
use assistant::intent_detector::{
    count_matches, get_default_intents, IntentDetector, KeywordIntentDetector, ZeroShotIntent,
};

fn phrases(list: &[&str]) -> Vec<String> {
    list.iter().map(|p| p.to_string()).collect()
}

fn greet_detector() -> KeywordIntentDetector {
    KeywordIntentDetector::new(vec![ZeroShotIntent::new("greet", phrases(&["hello"]))])
}

#[test]
fn keyword_score_counts_matching_phrase() {
    let detector = greet_detector();
    let scores = detector.get_intent_scores("hello there");
    assert_eq!(scores.len(), 1);
    assert_eq!(scores[0].intent, "greet");
    assert_eq!(scores[0].score, 1);
    let best = detector.detect("hello there").unwrap();
    assert_eq!(best.intent, "greet");
    assert_eq!(best.score, 1);
}

#[test]
fn keyword_score_zero_without_match() {
    let detector = greet_detector();
    let best = detector.detect("good morning").unwrap();
    assert_eq!(best.intent, "greet");
    assert_eq!(best.score, 0);
}

#[test]
fn keyword_match_is_case_sensitive() {
    let detector = greet_detector();
    assert_eq!(detector.detect("Hello there").unwrap().score, 0);
}

#[test]
fn count_matches_counts_each_phrase_once() {
    let list = phrases(&["ab", "b", "zz", "", "abc"]);
    assert_eq!(count_matches(&list, "abab"), 3);
    assert_eq!(count_matches(&list, ""), 1);
    assert_eq!(count_matches(&Vec::new(), "abab"), 0);
}

#[test]
fn empty_catalogue_has_no_intent() {
    let detector = KeywordIntentDetector::new(Vec::new());
    assert!(detector.detect("hello").is_err());
    assert_eq!(detector.detect("hello").err(), Some(AssistantError::NoIntentFound));
    assert_eq!(detector.detect_intent("hello"), Err(AssistantError::NoIntentFound));
    assert!(detector.get_intent_scores("hello").is_empty());
}

#[test]
fn highest_score_wins() {
    let mut detector = KeywordIntentDetector::new(Vec::new());
    detector.add_intent("weather", phrases(&["rain", "sun"]));
    detector.add_intent("food", phrases(&["pizza", "pasta", "eat"]));
    let best = detector.detect("can we eat pizza in the sun").unwrap();
    assert_eq!(best.intent, "food");
    assert_eq!(best.score, 2);
    assert_eq!(detector.detect_intent("rain and sun").unwrap(), "weather");
}

#[test]
fn ties_go_to_first_in_catalogue() {
    let detector = KeywordIntentDetector::new(vec![
        ZeroShotIntent::new("first", phrases(&["x"])),
        ZeroShotIntent::new("second", phrases(&["y"])),
        ZeroShotIntent::new("third", phrases(&["x", "y"])),
    ]);
    assert_eq!(detector.detect("x y").unwrap().intent, "third");
    assert_eq!(detector.detect("x").unwrap().intent, "first");
    assert_eq!(detector.detect("nothing").unwrap().intent, "first");
}

#[test]
fn default_intents_catalogue() {
    let intents = get_default_intents();
    let labels: Vec<&str> = intents.iter().map(|i| i.intent.as_str()).collect();
    assert_eq!(
        labels,
        vec!["greeting", "goodbye", "search_web", "search_files", "casual_chat", "priming_task", "code_execution"]
    );
    let counts: Vec<usize> = intents.iter().map(|i| i.training_phrases.len()).collect();
    assert_eq!(counts, vec![10, 10, 6, 6, 6, 6, 6]);
    assert_eq!(intents[0].training_phrases[0], "hello");
    assert_eq!(intents[6].training_phrases[5], "Show me the top 10 processes by CPU usage");
}

#[test]
fn detector_with_default_intents() {
    let detector = KeywordIntentDetector::new(Vec::new()).with_default_intents();
    assert_eq!(detector.detect_intent("see you later, bye").unwrap(), "goodbye");
    assert_eq!(detector.detect("see you later, bye").unwrap().score, 3);
    assert_eq!(detector.get_intent_scores("x").len(), 7);
}

#[test]
fn zero_shot_intent_new_keeps_fields() {
    let intent = ZeroShotIntent::new("label", phrases(&["a", "b"]));
    assert_eq!(intent.intent, "label");
    assert_eq!(intent.training_phrases, phrases(&["a", "b"]));
}
