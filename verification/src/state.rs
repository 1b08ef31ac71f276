//! The state model: what is known about a watched path at one instant,
//! and how two successive observations yield a transition.

use vstd::prelude::*;

verus! {

/// State transitions that a watchable may undergo between two polls.
#[derive(Debug, Copy, Clone, Eq, PartialEq)]
pub enum Transition {
    Created,
    Modified,
    Deleted,
    NoChange,
}

/// The observed state of a watched path.
///
/// A path either does not exist (or its metadata is inaccessible in a way
/// indistinguishable from absence), or it exists with a modification
/// timestamp. The timestamp is an opaque tick count, compared only for
/// equality; `Exists(None)` records a path that exists but whose
/// timestamp could not be read.
#[derive(Debug, Eq, PartialEq)]
pub enum WatchState {
    DoesNotExist,
    Exists(Option<u64>),
}

/// The transition that a previous and a current observation yield.
///
/// Crossing the existence boundary gives `Created` or `Deleted`;
/// `Modified` needs two known, distinct timestamps; every other pair,
/// including any with an unknown timestamp on either side, is no change.
pub open spec fn spec_transition(prev: WatchState, cur: WatchState) -> Transition {
    match (prev, cur) {
        (WatchState::DoesNotExist, WatchState::Exists(_)) => Transition::Created,
        (WatchState::Exists(_), WatchState::DoesNotExist) => Transition::Deleted,
        (WatchState::Exists(Some(t1)), WatchState::Exists(Some(t2))) => if t1 != t2 {
            Transition::Modified
        } else {
            Transition::NoChange
        },
        _ => Transition::NoChange,
    }
}

/// Classify the change between a previously stored state and the state
/// probed now.
pub fn compute_transition(prev: &WatchState, cur: &WatchState) -> (r: Transition)
    ensures
        r == spec_transition(*prev, *cur),
{
    match (prev, cur) {
        (WatchState::DoesNotExist, WatchState::Exists(_)) => Transition::Created,
        (WatchState::Exists(_), WatchState::DoesNotExist) => Transition::Deleted,
        (WatchState::Exists(Some(t1)), WatchState::Exists(Some(t2))) => if *t1 != *t2 {
            Transition::Modified
        } else {
            Transition::NoChange
        },
        _ => Transition::NoChange,
    }
}

/// A poll that observes exactly the state already stored reports no
/// transition. Since a poll stores what it observed, two successive polls
/// with no filesystem change in between yield only `NoChange` transitions
/// on the second.
pub proof fn lemma_quiescent_poll_reports_nothing(s: WatchState)
    ensures
        spec_transition(s, s) == Transition::NoChange,
{
}

/// The sequence form of quiescence: a poll that observes, at every index,
/// the state stored by the previous poll yields no transition anywhere.
pub proof fn lemma_watch_idempotent(states: Seq<WatchState>)
    ensures
        forall|i: int|
            0 <= i < states.len() ==> spec_transition(states[i], states[i])
                == Transition::NoChange,
{
}

/// `Created` and `Deleted` are edges, observed at most once per continuous
/// existence episode: the poll right after either one, observing the same
/// facts again, reports no transition.
pub proof fn lemma_edge_reported_once(prev: WatchState, cur: WatchState)
    ensures
        spec_transition(prev, cur) == Transition::Created ==> spec_transition(cur, cur)
            == Transition::NoChange,
        spec_transition(prev, cur) == Transition::Deleted ==> spec_transition(cur, cur)
            == Transition::NoChange,
{
}

/// `Modified` is reported exactly when both observations are present with
/// known, distinct timestamps; an unknown timestamp on either side never
/// yields `Modified`.
pub proof fn lemma_modified_needs_known_timestamps(prev: WatchState, cur: WatchState)
    ensures
        spec_transition(prev, cur) == Transition::Modified ==> (prev matches WatchState::Exists(
            Some(t1),
        ) && cur matches WatchState::Exists(Some(t2)) && t1 != t2),
        (prev matches WatchState::Exists(Some(t1)) && cur matches WatchState::Exists(Some(t2))
            && t1 != t2) ==> spec_transition(prev, cur) == Transition::Modified,
{
}

} // verus!
