use vstd::prelude::*;

use crate::error::{result_view, AssistantError};
use crate::text::{contains_text, lines_view, occurs_in};

verus! {

/// An intent label with the example phrases that stand for it.
pub struct ZeroShotIntent {
    pub intent: String,
    pub training_phrases: Vec<String>,
}

/// An intent label with its score for one utterance.
pub struct IntentScore {
    pub intent: String,
    pub score: usize,
}

/// Ranks candidate intents for an utterance and picks the best one.
pub trait IntentDetector {
    /// The label of the best-ranked intent for `text`, or the error.
    spec fn detected(&self, text: Seq<char>) -> Result<Seq<char>, AssistantError>;

    /// The label of the best-ranked intent for `text`.
    fn detect_intent(&self, text: &str) -> (r: Result<String, AssistantError>)
        ensures
            result_view(r) == self.detected(text@),
    ;
}

/// An intent as its label and the characters of its phrases.
pub open spec fn intent_view(i: ZeroShotIntent) -> (Seq<char>, Seq<Seq<char>>) {
    (i.intent@, lines_view(i.training_phrases@))
}

/// The intents of `v` as labels and phrases.
pub open spec fn catalogue_view(v: Seq<ZeroShotIntent>) -> Seq<(Seq<char>, Seq<Seq<char>>)> {
    v.map_values(|i: ZeroShotIntent| intent_view(i))
}

/// The number of `phrases` that occur literally in `text`.
pub open spec fn keyword_score(phrases: Seq<Seq<char>>, text: Seq<char>) -> nat
    decreases phrases.len(),
{
    if phrases.len() == 0 {
        0
    } else {
        keyword_score(phrases.drop_last(), text) + if occurs_in(phrases.last(), text) {
            1nat
        } else {
            0nat
        }
    }
}

/// The score of the intent at index `i` of `cat` for `text`.
pub open spec fn score_at(cat: Seq<(Seq<char>, Seq<Seq<char>>)>, i: int, text: Seq<char>) -> nat {
    keyword_score(cat[i].1, text)
}

/// `b` is the first index of `cat` whose score is the largest.
pub open spec fn is_first_best(cat: Seq<(Seq<char>, Seq<Seq<char>>)>, b: int, text: Seq<char>) -> bool {
    &&& 0 <= b < cat.len()
    &&& forall|j: int| 0 <= j < cat.len() ==> #[trigger] score_at(cat, j, text) <= score_at(cat, b, text)
    &&& forall|j: int| 0 <= j < b ==> #[trigger] score_at(cat, j, text) < score_at(cat, b, text)
}

/// No two indices are the first with the largest score.
pub proof fn lemma_first_best_unique(cat: Seq<(Seq<char>, Seq<Seq<char>>)>, b1: int, b2: int, text: Seq<char>)
    requires
        is_first_best(cat, b1, text),
        is_first_best(cat, b2, text),
    ensures
        b1 == b2,
{
    if b1 < b2 {
        assert(score_at(cat, b1, text) < score_at(cat, b2, text));
        assert(score_at(cat, b2, text) <= score_at(cat, b1, text));
    } else if b2 < b1 {
        assert(score_at(cat, b2, text) < score_at(cat, b1, text));
        assert(score_at(cat, b1, text) <= score_at(cat, b2, text));
    }
}

/// The label of the first intent of `cat` with the largest score for
/// `text`; `NoIntentFound` when `cat` is empty.
pub open spec fn best_label(cat: Seq<(Seq<char>, Seq<Seq<char>>)>, text: Seq<char>) -> Result<Seq<char>, AssistantError> {
    if cat.len() == 0 {
        Err(AssistantError::NoIntentFound)
    } else {
        Ok(cat[choose|b: int| is_first_best(cat, b, text)].0)
    }
}

impl ZeroShotIntent {
    pub fn new(intent: &str, training_phrases: Vec<String>) -> (r: ZeroShotIntent)
        ensures
            r.intent@ == intent@,
            r.training_phrases@ == training_phrases@,
    {
        ZeroShotIntent { intent: String::from_str(intent), training_phrases }
    }
}

/// The number of `phrases` that occur as a literal, case-sensitive
/// substring of `text`.
pub fn count_matches(phrases: &Vec<String>, text: &str) -> (r: usize)
    ensures
        r == keyword_score(lines_view(phrases@), text@),
{
    let mut count: usize = 0;
    let mut i: usize = 0;
    while i < phrases.len()
        invariant
            i <= phrases@.len(),
            count <= i,
            count == keyword_score(lines_view(phrases@).take(i as int), text@),
        decreases phrases@.len() - i,
    {
        assert(lines_view(phrases@).take(i + 1).drop_last() =~= lines_view(phrases@).take(i as int));
        if contains_text(text, phrases[i].as_str()) {
            count = count + 1;
        }
        i = i + 1;
    }
    assert(lines_view(phrases@).take(i as int) =~= lines_view(phrases@));
    count
}

/// The built-in catalogue: seven intents with their example phrases.
pub open spec fn default_catalogue() -> Seq<(Seq<char>, Seq<Seq<char>>)> {
    seq![
        (
            "greeting"@,
            seq![
                "hello"@,
                "hi"@,
                "how are you"@,
                "how are you doing"@,
                "how are you today"@,
                "hey how's it hanging"@,
                "hey how's it going"@,
                "hey how's it going today"@,
                "hello, nice to meet you"@,
                "hi, nice to meet you"@,
            ],
        ),
        (
            "goodbye"@,
            seq![
                "goodbye"@,
                "bye"@,
                "see you later"@,
                "see you soon"@,
                "see you"@,
                "talk to you later"@,
                "talk to you soon"@,
                "talk to you"@,
                "have a good day"@,
                "have a good one"@,
            ],
        ),
        (
            "search_web"@,
            seq![
                "look up how long the wait is at Il Mercato?"@,
                "What's the weather like tomorrow in Paris?"@,
                "Look up the quickest route to Oregon"@,
                "Search the web for trees"@,
                "Google the best restaurants in San Francisco"@,
                "Search the web for the best restaurants in San Francisco"@,
            ],
        ),
        (
            "search_files"@,
            seq![
                "Search for my resume"@,
                "find any notes from my last meeting"@,
                "search for my notes from my last meeting"@,
                "find any references I have to semantic search"@,
                "search for my references to semantic search"@,
                "Do I have any files related to graph databases"@,
            ],
        ),
        (
            "casual_chat"@,
            seq![
                "What's your favorite color?"@,
                "What do you think about the philosophy of existentialism?"@,
                "What are some good movies?"@,
                "Are you a robot?"@,
                "I wonder if I'll ever be able to pass the Turing test"@,
                "I've been thinking about the meaning of life lately"@,
            ],
        ),
        (
            "priming_task"@,
            seq![
                "Help me write a letter"@,
                "Be polite to the customer"@,
                "You are a robot and you are going to help me"@,
                "Summarize the following text"@,
                "Jot down some notes"@,
                "Execute the following code"@,
            ],
        ),
        (
            "code_execution"@,
            seq![
                "Tell me how many files are in the current directory"@,
                "What is the total size of the home directory?"@,
                "Give me a word count of the file named test.txt"@,
                "Execute a speed test on the network"@,
                "Show me the top 10 processes by memory usage"@,
                "Show me the top 10 processes by CPU usage"@,
            ],
        ),
    ]
}

/// An intent labelled `label` with the phrases of `phrases`, in order.
fn intent_of(label: &str, phrases: &[&str]) -> (r: ZeroShotIntent)
    ensures
        intent_view(r) == (label@, phrases@.map_values(|p: &str| p@)),
{
    let mut v: Vec<String> = Vec::new();
    let mut i: usize = 0;
    while i < phrases.len()
        invariant
            i <= phrases@.len(),
            lines_view(v@) == phrases@.take(i as int).map_values(|p: &str| p@),
        decreases phrases@.len() - i,
    {
        let s = String::from_str(phrases[i]);
        let ghost before = v@;
        v.push(s);
        assert(v@ == before.push(s));
        assert(lines_view(v@) =~= lines_view(before).push(s@));
        assert(phrases@.take(i + 1).map_values(|p: &str| p@) =~= phrases@.take(i as int).map_values(
            |p: &str| p@,
        ).push(phrases@[i as int]@));
        i = i + 1;
    }
    assert(phrases@.take(i as int) =~= phrases@);
    ZeroShotIntent::new(label, v)
}

/// The built-in catalogue of intents.
pub fn get_default_intents() -> (r: Vec<ZeroShotIntent>)
    ensures
        catalogue_view(r@) == default_catalogue(),
{
    let mut intents: Vec<ZeroShotIntent> = Vec::new();
    intents.push(
        intent_of(
            "greeting",
            &[
                "hello",
                "hi",
                "how are you",
                "how are you doing",
                "how are you today",
                "hey how's it hanging",
                "hey how's it going",
                "hey how's it going today",
                "hello, nice to meet you",
                "hi, nice to meet you",
            ],
        ),
    );
    intents.push(
        intent_of(
            "goodbye",
            &[
                "goodbye",
                "bye",
                "see you later",
                "see you soon",
                "see you",
                "talk to you later",
                "talk to you soon",
                "talk to you",
                "have a good day",
                "have a good one",
            ],
        ),
    );
    intents.push(
        intent_of(
            "search_web",
            &[
                "look up how long the wait is at Il Mercato?",
                "What's the weather like tomorrow in Paris?",
                "Look up the quickest route to Oregon",
                "Search the web for trees",
                "Google the best restaurants in San Francisco",
                "Search the web for the best restaurants in San Francisco",
            ],
        ),
    );
    intents.push(
        intent_of(
            "search_files",
            &[
                "Search for my resume",
                "find any notes from my last meeting",
                "search for my notes from my last meeting",
                "find any references I have to semantic search",
                "search for my references to semantic search",
                "Do I have any files related to graph databases",
            ],
        ),
    );
    intents.push(
        intent_of(
            "casual_chat",
            &[
                "What's your favorite color?",
                "What do you think about the philosophy of existentialism?",
                "What are some good movies?",
                "Are you a robot?",
                "I wonder if I'll ever be able to pass the Turing test",
                "I've been thinking about the meaning of life lately",
            ],
        ),
    );
    intents.push(
        intent_of(
            "priming_task",
            &[
                "Help me write a letter",
                "Be polite to the customer",
                "You are a robot and you are going to help me",
                "Summarize the following text",
                "Jot down some notes",
                "Execute the following code",
            ],
        ),
    );
    intents.push(
        intent_of(
            "code_execution",
            &[
                "Tell me how many files are in the current directory",
                "What is the total size of the home directory?",
                "Give me a word count of the file named test.txt",
                "Execute a speed test on the network",
                "Show me the top 10 processes by memory usage",
                "Show me the top 10 processes by CPU usage",
            ],
        ),
    );
    assert(catalogue_view(intents@) =~~= default_catalogue());
    intents
}

/// Scores intents by how many of their phrases occur in the utterance.
pub struct KeywordIntentDetector {
    intents: Vec<ZeroShotIntent>,
}

impl KeywordIntentDetector {
    /// The intents, in catalogue order.
    pub closed spec fn catalogue(&self) -> Seq<(Seq<char>, Seq<Seq<char>>)> {
        catalogue_view(self.intents@)
    }

    pub fn new(intents: Vec<ZeroShotIntent>) -> (r: KeywordIntentDetector)
        ensures
            r.catalogue() == catalogue_view(intents@),
    {
        KeywordIntentDetector { intents }
    }

    /// Appends the built-in catalogue to the intents.
    pub fn with_default_intents(self) -> (r: KeywordIntentDetector)
        ensures
            r.catalogue() == self.catalogue() + default_catalogue(),
    {
        let mut intents = self.intents;
        let mut defaults = get_default_intents();
        let ghost before = intents@;
        intents.append(&mut defaults);
        assert(catalogue_view(intents@) =~= catalogue_view(before) + default_catalogue());
        KeywordIntentDetector { intents }
    }

    /// Appends an intent to the catalogue.
    pub fn add_intent(&mut self, intent: &str, training_phrases: Vec<String>)
        ensures
            final(self).catalogue() == old(self).catalogue().push(
                (intent@, lines_view(training_phrases@)),
            ),
    {
        let i = ZeroShotIntent::new(intent, training_phrases);
        self.intents.push(i);
        assert(final(self).catalogue() =~= old(self).catalogue().push((intent@, lines_view(training_phrases@))));
    }

    /// The score of every intent for `text`, in catalogue order.
    pub fn get_intent_scores(&self, text: &str) -> (r: Vec<IntentScore>)
        ensures
            r@.len() == self.catalogue().len(),
            forall|i: int|
                0 <= i < r@.len() ==> (#[trigger] r@[i]).intent@ == self.catalogue()[i].0
                    && r@[i].score == score_at(self.catalogue(), i, text@),
    {
        let mut scores: Vec<IntentScore> = Vec::new();
        let mut i: usize = 0;
        while i < self.intents.len()
            invariant
                i <= self.intents@.len(),
                scores@.len() == i,
                forall|k: int|
                    0 <= k < i ==> (#[trigger] scores@[k]).intent@ == self.catalogue()[k].0
                        && scores@[k].score == score_at(self.catalogue(), k, text@),
            decreases self.intents@.len() - i,
        {
            let intent = &self.intents[i];
            let score = count_matches(&intent.training_phrases, text);
            scores.push(IntentScore { intent: intent.intent.clone(), score });
            i = i + 1;
        }
        scores
    }

    /// The first intent, in catalogue order, with the highest score for
    /// `text`; `NoIntentFound` when the catalogue is empty.
    pub fn detect(&self, text: &str) -> (r: Result<IntentScore, AssistantError>)
        ensures
            self.catalogue().len() == 0 <==> r == Err::<IntentScore, AssistantError>(AssistantError::NoIntentFound),
            r is Ok <==> self.catalogue().len() > 0,
            r matches Ok(s) ==> exists|b: int|
                is_first_best(self.catalogue(), b, text@) && s.intent@ == self.catalogue()[b].0
                    && s.score == score_at(self.catalogue(), b, text@),
    {
        let scores = self.get_intent_scores(text);
        if scores.len() == 0 {
            return Err(AssistantError::NoIntentFound);
        }
        let mut best: usize = 0;
        let mut i: usize = 1;
        while i < scores.len()
            invariant
                scores@.len() == self.catalogue().len(),
                forall|k: int|
                    0 <= k < scores@.len() ==> (#[trigger] scores@[k]).intent@ == self.catalogue()[k].0
                        && scores@[k].score == score_at(self.catalogue(), k, text@),
                0 <= best < i <= scores@.len(),
                forall|j: int| 0 <= j < i ==> #[trigger] score_at(self.catalogue(), j, text@) <= score_at(self.catalogue(), best as int, text@),
                forall|j: int| 0 <= j < best ==> #[trigger] score_at(self.catalogue(), j, text@) < score_at(self.catalogue(), best as int, text@),
            decreases scores@.len() - i,
        {
            assert(scores@[i as int].score == score_at(self.catalogue(), i as int, text@));
            assert(scores@[best as int].score == score_at(self.catalogue(), best as int, text@));
            if scores[i].score > scores[best].score {
                best = i;
            }
            i = i + 1;
        }
        assert(scores@[best as int].intent@ == self.catalogue()[best as int].0);
        Ok(IntentScore { intent: scores[best].intent.clone(), score: scores[best].score })
    }
}

impl IntentDetector for KeywordIntentDetector {
    open spec fn detected(&self, text: Seq<char>) -> Result<Seq<char>, AssistantError> {
        best_label(self.catalogue(), text)
    }

    fn detect_intent(&self, text: &str) -> (r: Result<String, AssistantError>) {
        match self.detect(text) {
            Ok(s) => {
                proof {
                    let b = choose|b: int|
                        is_first_best(self.catalogue(), b, text@) && s.intent@ == self.catalogue()[b].0
                            && s.score == score_at(self.catalogue(), b, text@);
                    let c = choose|c: int| is_first_best(self.catalogue(), c, text@);
                    lemma_first_best_unique(self.catalogue(), b, c, text@);
                }
                Ok(s.intent)
            },
            Err(e) => Err(e),
        }
    }
}

} // verus!
