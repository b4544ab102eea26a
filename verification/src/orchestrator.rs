//! The search driven by a changing filter. Every change of the filter asks
//! for one search and numbers it; of the answers that come back, only the one
//! to the latest search is taken, whatever the order in which they arrive.
//!
//! The orchestrator decides and keeps state; running a search and bringing
//! its answer back is left to the caller.

use crate::normalize::{is_rectangular, lemma_table_shape, Table};
use crate::results::{
    results_of, Projection, ProjectionView, RawResults, RawResultsView, Results, ResultsView,
};
use vstd::prelude::*;

verus! {

/// Where the latest search stands.
#[derive(Clone, Copy, Debug, PartialEq, Eq, Structural)]
pub enum Phase {
    /// No filter was submitted yet.
    Idle,
    /// The latest search has not been answered.
    Pending,
    /// The latest search was answered and its tables are held.
    Ready,
    /// The latest search failed.
    Failed,
}

/// A search to run: the filter, and the number under which its answer is to
/// be handed back.
pub struct SearchRequest {
    pub seq: u64,
    pub filter: String,
}

/// How a search ended.
pub enum SearchOutcome {
    /// The directories answered with these records.
    Found(RawResults),
    /// The search failed or timed out.
    Failed,
}

/// A `SearchOutcome` as plain sequences.
pub enum OutcomeView {
    Found(RawResultsView),
    Failed,
}

impl View for SearchOutcome {
    type V = OutcomeView;

    open spec fn view(&self) -> OutcomeView {
        match self {
            SearchOutcome::Found(raw) => OutcomeView::Found(raw@),
            SearchOutcome::Failed => OutcomeView::Failed,
        }
    }
}

/// The state of an orchestrator.
pub struct OrchestratorView {
    /// The columns of each directory and the placeholder, fixed at creation.
    pub projection: ProjectionView,
    /// The filter submitted last.
    pub filter: Seq<char>,
    /// How many filters were submitted; also the number of the latest search.
    pub submitted: nat,
    /// The number of the search whose answer was taken last, 0 if none was.
    pub accepted: nat,
    /// Where the latest search stands.
    pub phase: Phase,
    /// The tables of the last search that succeeded, unless a later one
    /// failed.
    pub shown: Option<ResultsView>,
}

impl OrchestratorView {
    /// The state before any filter is submitted.
    pub open spec fn initial(projection: ProjectionView) -> OrchestratorView {
        OrchestratorView {
            projection,
            filter: Seq::empty(),
            submitted: 0,
            accepted: 0,
            phase: Phase::Idle,
            shown: None,
        }
    }

    /// The state after `filter` is submitted: a new search, numbered one
    /// above the previous one, is pending. What is shown stays.
    pub open spec fn submit(self, filter: Seq<char>) -> OrchestratorView {
        OrchestratorView {
            filter,
            submitted: self.submitted + 1,
            phase: Phase::Pending,
            ..self
        }
    }

    /// Whether the answer to search `seq` is the one waited for.
    pub open spec fn awaits(self, seq: nat) -> bool {
        self.phase == Phase::Pending && seq == self.submitted
    }

    /// The state after the answer to search `seq` arrives. The awaited
    /// answer replaces what is shown as a whole: by its tables, or by nothing
    /// if the search failed. Any other answer leaves the state as it is.
    pub open spec fn complete(self, seq: nat, outcome: OutcomeView) -> OrchestratorView {
        if self.awaits(seq) {
            match outcome {
                OutcomeView::Found(raw) => OrchestratorView {
                    accepted: seq,
                    phase: Phase::Ready,
                    shown: Some(results_of(self.projection, raw)),
                    ..self
                },
                OutcomeView::Failed => OrchestratorView {
                    accepted: seq,
                    phase: Phase::Failed,
                    shown: None,
                    ..self
                },
            }
        } else {
            self
        }
    }

    /// What holds of every state that submissions and answers lead to.
    pub open spec fn inv(self) -> bool {
        &&& self.accepted <= self.submitted
        &&& self.phase == Phase::Idle <==> self.submitted == 0
        &&& self.phase == Phase::Pending ==> self.accepted < self.submitted
        &&& self.phase == Phase::Ready || self.phase == Phase::Failed ==> self.accepted
            == self.submitted
        &&& self.phase == Phase::Ready ==> self.shown is Some
        &&& self.phase == Phase::Idle || self.phase == Phase::Failed ==> self.shown is None
        &&& self.shown matches Some(results) ==> {
            &&& is_headed_by(results.ldap, self.projection.ldap_attrs)
            &&& is_headed_by(results.ad, self.projection.ad_attrs)
        }
    }
}

/// `table` is rectangular and its first row is `attrs`.
pub open spec fn is_headed_by(table: Table, attrs: Seq<Seq<char>>) -> bool {
    &&& table.len() > 0
    &&& table[0] == attrs
    &&& is_rectangular(table)
}

/// The state before any filter is submitted is a state as `inv` describes.
pub proof fn lemma_initial_inv(projection: ProjectionView)
    ensures
        OrchestratorView::initial(projection).inv(),
{
}

/// Submitting a filter keeps `inv`.
pub proof fn lemma_submit_keeps_inv(state: OrchestratorView, filter: Seq<char>)
    requires
        state.inv(),
    ensures
        state.submit(filter).inv(),
{
}

/// Handing in an answer, awaited or not, keeps `inv`.
pub proof fn lemma_complete_keeps_inv(state: OrchestratorView, seq: nat, outcome: OutcomeView)
    requires
        state.inv(),
    ensures
        state.complete(seq, outcome).inv(),
{
    if let OutcomeView::Found(raw) = outcome {
        let projection = state.projection;
        lemma_table_shape(projection.ldap_attrs, raw.ldap, projection.placeholder);
        lemma_table_shape(projection.ad_attrs, raw.ad, projection.placeholder);
    }
}

/// An answer is taken only if its number is above that of the answer taken
/// before it, and any other answer changes nothing: what is shown never goes
/// back to an earlier search.
pub proof fn lemma_answers_taken_in_order(state: OrchestratorView, seq: nat, outcome: OutcomeView)
    requires
        state.inv(),
    ensures
        state.awaits(seq) ==> seq > state.accepted,
        state.complete(seq, outcome).accepted >= state.accepted,
        !state.awaits(seq) ==> state.complete(seq, outcome) == state,
{
}

/// An answer is taken once: handing in an answer to the same search again,
/// whatever it holds, changes nothing.
pub proof fn lemma_answer_taken_once(
    state: OrchestratorView,
    seq: nat,
    outcome: OutcomeView,
    again: OutcomeView,
)
    ensures
        state.complete(seq, outcome).complete(seq, again) == state.complete(seq, outcome),
{
}

/// With two filters submitted one after the other, what is shown in the end
/// is the answer to the second, whether the answer to the first arrives
/// after it or before it: arriving late it changes nothing, and arriving
/// early it is dropped because the second search is already awaited.
pub proof fn lemma_latest_filter_wins(
    state: OrchestratorView,
    first: Seq<char>,
    second: Seq<char>,
    first_outcome: OutcomeView,
    second_outcome: OutcomeView,
)
    ensures
        ({
            let one = state.submit(first);
            let two = one.submit(second);
            let answered = two.complete(two.submitted, second_outcome);
            &&& answered.complete(one.submitted, first_outcome) == answered
            &&& two.complete(one.submitted, first_outcome).complete(two.submitted, second_outcome)
                == answered
            &&& answered.filter == second
            &&& answered.shown == match second_outcome {
                OutcomeView::Found(raw) => Some(results_of(state.projection, raw)),
                OutcomeView::Failed => None,
            }
        }),
{
}

/// Follows the filter: numbers the searches, remembers which one is awaited,
/// and holds the tables of the last answer taken.
pub struct Orchestrator {
    projection: Projection,
    filter: String,
    submitted: u64,
    accepted: u64,
    phase: Phase,
    shown: Option<Results>,
}

impl View for Orchestrator {
    type V = OrchestratorView;

    closed spec fn view(&self) -> OrchestratorView {
        OrchestratorView {
            projection: self.projection@,
            filter: self.filter@,
            submitted: self.submitted as nat,
            accepted: self.accepted as nat,
            phase: self.phase,
            shown: match self.shown {
                Some(results) => Some(results@),
                None => None,
            },
        }
    }
}

impl Orchestrator {
    /// An orchestrator to which no filter was submitted yet.
    pub fn new(projection: Projection) -> (orchestrator: Self)
        ensures
            orchestrator@ == OrchestratorView::initial(projection@),
            orchestrator@.inv(),
    {
        Orchestrator {
            projection,
            filter: String::new(),
            submitted: 0,
            accepted: 0,
            phase: Phase::Idle,
            shown: None,
        }
    }

    /// Takes a new filter and returns the one search to run for it. The
    /// search that was pending, if any, is superseded: its answer will be
    /// dropped when it arrives.
    pub fn on_filter_changed(&mut self, new_filter: String) -> (request: SearchRequest)
        requires
            old(self)@.submitted < u64::MAX,
        ensures
            final(self)@ == old(self)@.submit(new_filter@),
            final(self)@.shown == old(self)@.shown,
            request.seq == old(self)@.submitted + 1,
            request.filter@ == new_filter@,
            old(self)@.inv() ==> final(self)@.inv(),
    {
        let filter = new_filter.clone();
        self.filter = new_filter;
        self.submitted = self.submitted + 1;
        self.phase = Phase::Pending;
        SearchRequest { seq: self.submitted, filter }
    }

    /// Hands in the answer to search `seq`. Returns whether it was taken:
    /// only the answer to the latest search is, and only once.
    pub fn on_search_completed(&mut self, seq: u64, outcome: SearchOutcome) -> (accepted: bool)
        ensures
            accepted == old(self)@.awaits(seq as nat),
            final(self)@ == old(self)@.complete(seq as nat, outcome@),
            old(self)@.inv() ==> final(self)@.inv(),
    {
        if self.phase != Phase::Pending || seq != self.submitted {
            return false;
        }
        match outcome {
            SearchOutcome::Found(raw) => {
                let results = Results::build(&self.projection, &raw);
                self.shown = Some(results);
                self.phase = Phase::Ready;
            },
            SearchOutcome::Failed => {
                self.shown = None;
                self.phase = Phase::Failed;
            },
        }
        self.accepted = seq;
        true
    }

    /// Where the latest search stands.
    pub fn phase(&self) -> (phase: Phase)
        ensures
            phase == self@.phase,
    {
        self.phase
    }

    /// The filter submitted last; empty before the first one.
    pub fn filter(&self) -> (filter: &str)
        ensures
            filter@ == self@.filter,
    {
        self.filter.as_str()
    }

    /// The number of the latest search; 0 before the first one.
    pub fn submitted(&self) -> (seq: u64)
        ensures
            seq == self@.submitted,
    {
        self.submitted
    }

    /// The number of the search whose answer was taken last; 0 if none was.
    pub fn accepted(&self) -> (seq: u64)
        ensures
            seq == self@.accepted,
    {
        self.accepted
    }

    /// The tables to show: those of the last search that succeeded, as a
    /// whole, or nothing before the first answer and after a failure.
    pub fn results(&self) -> (shown: Option<&Results>)
        ensures
            match shown {
                Some(results) => self@.shown == Some(results@),
                None => self@.shown is None,
            },
    {
        self.shown.as_ref()
    }
}

} // verus!
