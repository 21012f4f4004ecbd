use vstd::prelude::*;

use crate::error::{result_view, AssistantError};
use crate::intent_detector::IntentDetector;
use crate::model_traits::Responder;
use crate::text::lines_view;

verus! {

/// Where a router sends an utterance whose detected intent is `label`.
pub enum Target {
    /// The route at this index of the table.
    Route(usize),
    /// The default responder.
    Default,
    /// Nowhere: no route matches and no default is set.
    Missing,
}

/// The first index of `label` in `labels`, if it is there.
pub open spec fn label_index(labels: Seq<Seq<char>>, label: Seq<char>) -> Option<int>
    decreases labels.len(),
{
    if labels.len() == 0 {
        None
    } else {
        match label_index(labels.drop_last(), label) {
            Some(i) => Some(i),
            None => if labels.last() == label {
                Some(labels.len() - 1)
            } else {
                None
            },
        }
    }
}

proof fn lemma_label_index_bounds(labels: Seq<Seq<char>>, label: Seq<char>)
    ensures
        label_index(labels, label) matches Some(i) ==> 0 <= i < labels.len() && labels[i] == label,
        label_index(labels, label) is None ==> forall|k: int| 0 <= k < labels.len() ==> labels[k] != label,
    decreases labels.len(),
{
    if labels.len() > 0 {
        lemma_label_index_bounds(labels.drop_last(), label);
        assert forall|k: int| 0 <= k < labels.len() - 1 implies labels[k] == labels.drop_last()[k] by {}
    }
}

proof fn lemma_label_index_prefix(labels: Seq<Seq<char>>, label: Seq<char>, k: int)
    requires
        0 <= k <= labels.len(),
        label_index(labels.take(k), label) is Some,
    ensures
        label_index(labels, label) == label_index(labels.take(k), label),
    decreases labels.len() - k,
{
    if k < labels.len() {
        assert(labels.take(k + 1).drop_last() =~= labels.take(k));
        lemma_label_index_prefix(labels, label, k + 1);
    } else {
        assert(labels.take(k) =~= labels);
    }
}

/// Dispatches each utterance to the responder of its detected intent, or
/// to a default responder when no route matches.
pub struct IntentRouter<D: IntentDetector, R: Responder> {
    detector: D,
    labels: Vec<String>,
    responders: Vec<R>,
    default_route: Option<R>,
}

impl<D: IntentDetector, R: Responder> IntentRouter<D, R> {
    pub closed spec fn detector(&self) -> D {
        self.detector
    }

    /// The labels of the route table, in the order they were first added.
    pub closed spec fn labels(&self) -> Seq<Seq<char>> {
        lines_view(self.labels@)
    }

    /// The responders of the route table, index by index with `labels`.
    pub closed spec fn responders(&self) -> Seq<R> {
        self.responders@
    }

    /// Every label has its responder.
    pub closed spec fn consistent(&self) -> bool {
        self.labels@.len() == self.responders@.len()
    }

    /// Every label has its responder, and no label occurs twice.
    pub open spec fn wf(&self) -> bool {
        &&& self.consistent()
        &&& forall|i: int, j: int|
            0 <= i < j < self.labels().len() ==> self.labels()[i] != self.labels()[j]
    }

    pub closed spec fn default_responder(&self) -> Option<R> {
        self.default_route
    }

    /// Where an utterance whose detected intent is `label` goes.
    pub open spec fn target_of(&self, label: Seq<char>) -> Target {
        match label_index(self.labels(), label) {
            Some(i) => Target::Route(i as usize),
            None => if self.default_responder() is Some {
                Target::Default
            } else {
                Target::Missing
            },
        }
    }

    /// `after` and `r` are what handing `input` to the responder that
    /// `label` selects may give: that responder answers `input` and its
    /// result is returned, and nothing else changes; with no such
    /// responder the result is `NoRouteFound` and nothing changes.
    pub open spec fn dispatched(&self, label: Seq<char>, input: Seq<char>, after: Self, r: Result<String, AssistantError>) -> bool {
        &&& after.detector() == self.detector()
        &&& after.labels() == self.labels()
        &&& after.responders().len() == self.responders().len()
        &&& match self.target_of(label) {
            Target::Route(i) => {
                &&& forall|j: int|
                    0 <= j < self.responders().len() && j != i ==> after.responders()[j]
                        == self.responders()[j]
                &&& after.default_responder() == self.default_responder()
                &&& self.responders()[i as int].answered(input, after.responders()[i as int], r)
            },
            Target::Default => {
                &&& after.responders() == self.responders()
                &&& after.default_responder() is Some
                &&& self.default_responder().unwrap().answered(input, after.default_responder().unwrap(), r)
            },
            Target::Missing => {
                &&& after.responders() == self.responders()
                &&& after.default_responder() == self.default_responder()
                &&& r == Err::<String, AssistantError>(AssistantError::NoRouteFound)
            },
        }
    }

    /// `after` and `r` are what routing `input` may give: a detection
    /// error is returned unchanged and nothing is dispatched; otherwise
    /// the input is dispatched on the detected label.
    pub open spec fn routed(&self, input: Seq<char>, after: Self, r: Result<String, AssistantError>) -> bool {
        match self.detector().detected(input) {
            Err(e) => r == Err::<String, AssistantError>(e) && after == *self,
            Ok(label) => self.dispatched(label, input, after, r),
        }
    }

    /// A router with `detector`, no routes and no default.
    pub fn new(detector: D) -> (r: Self)
        ensures
            r.wf(),
            r.detector() == detector,
            r.labels() == Seq::<Seq<char>>::empty(),
            r.responders().len() == 0,
            r.default_responder() is None,
    {
        let r = IntentRouter { detector, labels: Vec::new(), responders: Vec::new(), default_route: None };
        assert(r.labels() =~= Seq::<Seq<char>>::empty());
        r
    }

    /// The index of the route for `label`, if there is one.
    fn find_route(&self, label: &str) -> (r: Option<usize>)
        ensures
            r matches Some(i) ==> label_index(self.labels(), label@) == Some(i as int),
            r is None ==> label_index(self.labels(), label@) is None,
    {
        let target = String::from_str(label);
        let mut i: usize = 0;
        assert(self.labels().take(0) =~= Seq::<Seq<char>>::empty());
        while i < self.labels.len()
            invariant
                i <= self.labels@.len(),
                self.labels().len() == self.labels@.len(),
                target@ == label@,
                label_index(self.labels().take(i as int), label@) is None,
            decreases self.labels@.len() - i,
        {
            assert(self.labels()[i as int] == self.labels@[i as int]@);
            assert(self.labels().take(i + 1).drop_last() =~= self.labels().take(i as int));
            assert(self.labels().take(i + 1).last() == self.labels()[i as int]);
            if self.labels[i].eq(&target) {
                proof {
                    lemma_label_index_prefix(self.labels(), label@, i + 1);
                }
                return Some(i);
            }
            i = i + 1;
        }
        assert(self.labels().take(i as int) =~= self.labels());
        None
    }

    /// Sets the responder for `intent`, replacing any earlier one.
    pub fn add_route(&mut self, intent: String, responder: R)
        requires
            old(self).wf(),
        ensures
            final(self).wf(),
            final(self).detector() == old(self).detector(),
            final(self).default_responder() == old(self).default_responder(),
            label_index(old(self).labels(), intent@) is Some ==> final(self).labels() == old(self).labels(),
            label_index(old(self).labels(), intent@) is None ==> final(self).labels() == old(self).labels().push(intent@),
            label_index(final(self).labels(), intent@) matches Some(i)
                && final(self).responders()[i] == responder,
            forall|j: int|
                0 <= j < old(self).labels().len() && old(self).labels()[j] != intent@
                    ==> final(self).responders()[j] == old(self).responders()[j],
    {
        proof {
            lemma_label_index_bounds(old(self).labels(), intent@);
        }
        match self.find_route(intent.as_str()) {
            Some(i) => {
                self.responders.remove(i);
                proof {
                    old(self).responders@.remove_ensures(i as int);
                    self.responders@.insert_ensures(i as int, responder);
                }
                self.responders.insert(i, responder);
                assert(self.responders@ =~= old(self).responders@.update(i as int, responder));
            },
            None => {
                let ghost label = intent@;
                self.labels.push(intent);
                self.responders.push(responder);
                assert(self.labels() =~= old(self).labels().push(label));
                assert(self.labels().drop_last() =~= old(self).labels());
                proof {
                    lemma_label_index_bounds(self.labels().drop_last(), label);
                }
                assert forall|a: int, b: int| 0 <= a < b < self.labels().len() implies self.labels()[a]
                    != self.labels()[b] by {
                    if b < old(self).labels().len() {
                        assert(old(self).labels()[a] != old(self).labels()[b]);
                    } else {
                        assert(old(self).labels()[a] != label);
                    }
                }
            },
        }
    }

    /// Sets the responder used when no route matches.
    pub fn set_default_route(&mut self, responder: R)
        ensures
            old(self).wf() ==> final(self).wf(),
            final(self).consistent() == old(self).consistent(),
            final(self).default_responder() == Some(responder),
            final(self).detector() == old(self).detector(),
            final(self).labels() == old(self).labels(),
            final(self).responders() == old(self).responders(),
    {
        self.default_route = Some(responder);
        assert(self.labels() == old(self).labels());
    }

    /// Hands `input` to the responder that `label` selects: its route, else
    /// the default; fails with `NoRouteFound`, changing nothing, when there
    /// is neither.  The chosen responder's result is returned unchanged.
    pub fn dispatch(&mut self, label: &str, input: &str) -> (r: Result<String, AssistantError>)
        requires
            old(self).consistent(),
        ensures
            final(self).consistent(),
            old(self).wf() ==> final(self).wf(),
            old(self).dispatched(label@, input@, *final(self), r),
    {
        proof {
            lemma_label_index_bounds(old(self).labels(), label@);
        }
        match self.find_route(label) {
            Some(i) => {
                let mut responder = self.responders.remove(i);
                let r = responder.respond(input);
                let ghost after = responder;
                proof {
                    old(self).responders@.remove_ensures(i as int);
                    self.responders@.insert_ensures(i as int, after);
                }
                self.responders.insert(i, responder);
                assert(self.responders@ =~= old(self).responders@.update(i as int, after));
                r
            },
            None => {
                match self.default_route.take() {
                    Some(mut responder) => {
                        let r = responder.respond(input);
                        self.default_route = Some(responder);
                        r
                    },
                    None => Err(AssistantError::NoRouteFound),
                }
            },
        }
    }

    /// Detects the intent of `input` and dispatches it.  A detection failure
    /// is returned unchanged and no responder is invoked; otherwise the
    /// result is that of `dispatch` on the detected label.
    pub fn route(&mut self, input: &str) -> (r: Result<String, AssistantError>)
        requires
            old(self).consistent(),
        ensures
            final(self).consistent(),
            old(self).wf() ==> final(self).wf(),
            old(self).routed(input@, *final(self), r),
    {
        match self.detector.detect_intent(input) {
            Err(e) => Err(e),
            Ok(label) => self.dispatch(label.as_str(), input),
        }
    }
}

impl<D: IntentDetector, R: Responder> Responder for IntentRouter<D, R> {
    open spec fn answered(&self, input: Seq<char>, after: Self, r: Result<String, AssistantError>) -> bool {
        if self.consistent() {
            self.routed(input, after, r)
        } else {
            r == Err::<String, AssistantError>(AssistantError::NoRouteFound) && after == *self
        }
    }

    fn respond(&mut self, input: &str) -> Result<String, AssistantError> {
        // Every router that `new` and `add_route` build has a responder per
        // label; the test restates that for the verifier.
        if self.labels.len() == self.responders.len() {
            self.route(input)
        } else {
            Err(AssistantError::NoRouteFound)
        }
    }
}

} // verus!
