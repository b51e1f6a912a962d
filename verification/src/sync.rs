//! A value that tasks can watch for changes.
//!
//! A `Stat` holds the current value and the wakers of the tasks waiting for
//! it to change. Setting a different value hands back all those wakers, for
//! the caller to wake each once, and forgets them; setting an equal value
//! changes nothing and hands back none.
use std::task::Waker;
use vstd::std_specs::cmp::PartialEqSpec;
use vstd::prelude::*;

verus! {

/// `std::task::Waker`, the handle that wakes a waiting task, carried as is.
#[verifier::external_type_specification]
#[verifier::external_body]
pub struct ExWaker(Waker);

/// A watched value and the wakers of the tasks waiting for it to change.
pub struct Stat<T> where T: Clone + Eq + 'static {
    stat: T,
    wakers: Vec<Waker>,
}

impl<T> Stat<T> where T: Clone + Eq + 'static {
    /// The current value.
    pub closed spec fn value(self) -> T {
        self.stat
    }

    /// The wakers of the tasks waiting for a change, in the order they came.
    pub closed spec fn wakers(self) -> Seq<Waker> {
        self.wakers@
    }

    /// A value with no task waiting on it.
    pub fn new(value: T) -> (r: Self)
        ensures
            r.value() == value,
            r.wakers() == Seq::<Waker>::empty(),
    {
        Self { stat: value, wakers: Vec::new() }
    }

    /// A clone of the current value.
    pub fn current_stat(&self) -> (r: T)
        ensures
            cloned::<T>(self.value(), r),
    {
        self.stat.clone()
    }

    /// Sets the value. When it differs from the current one, the wakers of
    /// every waiting task are handed back, in the order they came, to be woken
    /// once each, and forgotten; when it is equal, nothing changes and no
    /// waker is handed back.
    pub fn update_stat(&mut self, value: T) -> (to_wake: Vec<Waker>)
        ensures
            ({
                let unchanged = final(self).value() == old(self).value() && final(self).wakers()
                    == old(self).wakers() && to_wake@.len() == 0;
                let changed = final(self).value() == value && final(self).wakers().len() == 0
                    && to_wake@ == old(self).wakers();
                &&& unchanged || changed
                &&& T::obeys_eq_spec() ==> (old(self).value().eq_spec(&value) ==> unchanged)
                &&& T::obeys_eq_spec() ==> (!old(self).value().eq_spec(&value) ==> changed)
            }),
    {
        if self.stat == value {
            return Vec::new();
        }
        self.stat = value;
        let mut wakers: Vec<Waker> = Vec::new();
        std::mem::swap(&mut wakers, &mut self.wakers);
        wakers
    }

    /// A future-like waiter that is ready on its second poll, after it has
    /// registered its waker with this value.
    pub fn changed(&self) -> (r: Changed)
        ensures
            !r.is_waiting(),
    {
        Changed { waiting: false }
    }
}

/// Waits for the next change of a `Stat`: the first poll registers the
/// task's waker and is pending; the poll after the wake-up is ready.
pub struct Changed {
    waiting: bool,
}

impl Changed {
    /// Whether the waker has been registered and the next poll is ready.
    pub closed spec fn is_waiting(self) -> bool {
        self.waiting
    }

    /// One poll: ready (`true`) if the waker was registered by the previous
    /// poll; otherwise registers `waker` with `stat` and is pending.
    pub fn poll<T>(&mut self, stat: &mut Stat<T>, waker: Waker) -> (ready: bool) where
        T: Clone + Eq + 'static,
        ensures
            ready == old(self).is_waiting(),
            final(self).is_waiting() == !old(self).is_waiting(),
            final(stat).value() == old(stat).value(),
            final(stat).wakers() == (if ready {
                old(stat).wakers()
            } else {
                old(stat).wakers().push(waker)
            }),
    {
        if self.waiting {
            self.waiting = false;
            return true;
        }
        stat.wakers.push(waker);
        self.waiting = true;
        false
    }
}

} // verus!
