//! The watcher registry: parallel, positionally aligned sequences of
//! targets and their last-observed states, with registration, removal,
//! inspection, and the poll-and-diff cycle.

use vstd::prelude::*;

use crate::state::compute_transition;
use crate::state::spec_transition;
use crate::state::Transition;
use crate::state::WatchState;

verus! {

/// The base watchable trait: something that yields a filesystem path.
///
/// The path must stay the same for the lifetime of the value; the watcher
/// relies on this to keep each stored state meaningful across polls.
pub trait Watchable {
    /// The path, as the specification sees it.
    spec fn spec_path(&self) -> Seq<char>;

    /// The path associated with the watchable object.
    fn path(&self) -> (r: &String)
        ensures
            r@ == self.spec_path(),
    ;
}

/// A standalone implementation of the watchable trait: it holds a path
/// directly.
#[derive(Debug, Clone)]
pub struct BasicTarget {
    /// The path we want to watch
    path: String,
}

impl BasicTarget {
    /// Wrap a path. The path is kept verbatim: no normalization or
    /// canonicalization is performed, so two spellings of one location
    /// stay two distinct targets.
    pub fn new(path: String) -> (r: Self)
        ensures
            r.spec_path() == path@,
    {
        BasicTarget { path }
    }
}

impl Watchable for BasicTarget {
    closed spec fn spec_path(&self) -> Seq<char> {
        self.path@
    }

    fn path(&self) -> (r: &String) {
        &self.path
    }
}

/// A watcher instance.
///
/// An instance of Watcher keeps track of a vector of watchables and their
/// corresponding states. The two vectors are positionally aligned:
/// `states` holds, for each target, the state stored by the most recent
/// registration or poll.
#[derive(Debug)]
pub struct Watcher<W: Watchable> {
    targets: Vec<W>,
    states: Vec<WatchState>,
}

impl<W: Watchable> Watcher<W> {
    /// The registered targets, in insertion order, as the specification
    /// sees them.
    pub closed spec fn spec_targets(&self) -> Seq<W> {
        self.targets@
    }

    /// The stored states, one per target, as the specification sees them.
    pub closed spec fn spec_states(&self) -> Seq<WatchState> {
        self.states@
    }

    /// The registry invariant: the two sequences stay positionally
    /// aligned.
    pub open spec fn wf(&self) -> bool {
        self.spec_targets().len() == self.spec_states().len()
    }

    /// Create a new, empty watcher instance.
    pub fn new() -> (r: Self)
        ensures
            r.wf(),
            r.spec_targets() == Seq::<W>::empty(),
            r.spec_states() == Seq::<WatchState>::empty(),
    {
        Watcher { targets: Vec::new(), states: Vec::new() }
    }

    /// The number of registered targets.
    pub fn len(&self) -> (r: usize)
        ensures
            r == self.spec_targets().len(),
    {
        self.targets.len()
    }

    /// Add a target to the watcher, together with the state just probed
    /// for its path.
    ///
    /// The new entry takes the last index; all existing entries are
    /// unchanged.
    pub fn add_target(&mut self, target: W, initial: WatchState)
        requires
            old(self).wf(),
        ensures
            final(self).wf(),
            final(self).spec_targets() == old(self).spec_targets().push(target),
            final(self).spec_states() == old(self).spec_states().push(initial),
    {
        self.states.push(initial);
        self.targets.push(target);
    }

    /// Remove a target from the watcher, together with its stored state.
    ///
    /// Succeeds exactly when `index` is a valid position, that is,
    /// strictly less than the current length; entries above it shift down
    /// by one, keeping their relative order. An out-of-range index leaves
    /// the watcher unchanged and returns false.
    pub fn remove_target(&mut self, index: usize) -> (r: bool)
        requires
            old(self).wf(),
        ensures
            final(self).wf(),
            r == (index < old(self).spec_targets().len()),
            r ==> final(self).spec_targets() == old(self).spec_targets().remove(index as int),
            r ==> final(self).spec_states() == old(self).spec_states().remove(index as int),
            !r ==> final(self).spec_targets() == old(self).spec_targets(),
            !r ==> final(self).spec_states() == old(self).spec_states(),
    {
        if index < self.states.len() {
            self.states.remove(index);
            self.targets.remove(index);
            true
        } else {
            false
        }
    }

    /// Attempt to get the state corresponding to the given target index.
    ///
    /// Note that this doesn't probe: it returns the state stored by the
    /// most recent registration or poll, or nothing when the index is out
    /// of range.
    pub fn get_state(&self, index: usize) -> (r: Option<&WatchState>)
        ensures
            match r {
                Some(s) => index < self.spec_states().len() && *s == self.spec_states()[
                    index as int
                ],
                None => index >= self.spec_states().len(),
            },
    {
        if index < self.states.len() {
            Some(&self.states[index])
        } else {
            None
        }
    }

    /// Attempt to get the path corresponding to the given target index,
    /// or nothing when the index is out of range.
    pub fn get_path(&self, index: usize) -> (r: Option<&String>)
        requires
            self.wf(),
        ensures
            match r {
                Some(p) => index < self.spec_targets().len() && p@ == self.spec_targets()[
                    index as int
                ].spec_path(),
                None => index >= self.spec_targets().len(),
            },
    {
        if index < self.targets.len() {
            Some(self.targets[index].path())
        } else {
            None
        }
    }

    /// Observe any state transitions in our targets, given the state just
    /// probed for each target's path, in target order.
    ///
    /// Returns one transition per target: how the probed state compares
    /// to the stored one. The probed states become the new stored states,
    /// so a second poll observing the same states reports no transition.
    pub fn watch(&mut self, current: Vec<WatchState>) -> (r: Vec<Transition>)
        requires
            old(self).wf(),
            current@.len() == old(self).spec_targets().len(),
        ensures
            final(self).wf(),
            final(self).spec_targets() == old(self).spec_targets(),
            final(self).spec_states() == current@,
            r@.len() == old(self).spec_targets().len(),
            forall|i: int|
                0 <= i < r@.len() ==> r@[i] == spec_transition(
                    old(self).spec_states()[i],
                    current@[i],
                ),
    {
        let mut result: Vec<Transition> = Vec::new();
        let mut index: usize = 0;

        while index < current.len()
            invariant
                index <= current@.len(),
                current@.len() == self.spec_states().len(),
                self.spec_states() == old(self).spec_states(),
                self.spec_targets() == old(self).spec_targets(),
                result@.len() == index,
                forall|i: int|
                    0 <= i < index ==> result@[i] == spec_transition(
                        self.spec_states()[i],
                        current@[i],
                    ),
            decreases current@.len() - index,
        {
            let transition = compute_transition(&self.states[index], &current[index]);
            result.push(transition);
            index += 1;
        }

        self.states = current;
        result
    }
}

impl<W: Watchable> Default for Watcher<W> {
    /// An empty watcher.
    fn default() -> (r: Self)
        ensures
            r.wf(),
            r.spec_targets() == Seq::<W>::empty(),
            r.spec_states() == Seq::<WatchState>::empty(),
    {
        Watcher::new()
    }
}

} // verus!
