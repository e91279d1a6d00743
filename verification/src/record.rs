use vstd::prelude::*;

use crate::duration::Duration;
use crate::notify::{AsyncNotify, Deferred, SyncNotify};

verus! {

/// A synchronous notification callback that records what it observes: it
/// counts its calls and keeps the durations it was given, in the order they
/// were issued. The errors it saw are carried in the abstract call log.
pub struct Recorder<E> {
    durations: Vec<Duration>,
    log: Ghost<Seq<(E, Duration)>>,
}

impl<E> Recorder<E> {
    /// A fresh recorder that has seen no calls.
    pub fn new() -> (r: Recorder<E>)
        ensures
            r.wf(),
            r.calls() == Seq::<(E, Duration)>::empty(),
    {
        Recorder { durations: Vec::new(), log: Ghost(Seq::empty()) }
    }

    /// How many calls the recorder has received.
    pub fn count(&self) -> (n: usize)
        requires
            self.wf(),
        ensures
            n == self.calls().len(),
    {
        self.durations.len()
    }

    /// The duration the `i`th call (oldest first) was issued with.
    pub fn duration_at(&self, i: usize) -> (d: Duration)
        requires
            self.wf(),
            i < self.calls().len(),
        ensures
            d == self.calls()[i as int].1,
    {
        self.durations[i]
    }
}

impl<E> SyncNotify<E> for Recorder<E> {
    /// The stored durations mirror the duration half of the call log.
    closed spec fn wf(&self) -> bool {
        &&& self.durations@.len() == self.log@.len()
        &&& forall|i: int|
            0 <= i < self.log@.len() ==> self.durations@[i] == (#[trigger] self.log@[i]).1
    }

    closed spec fn calls(&self) -> Seq<(E, Duration)> {
        self.log@
    }

    fn call(&mut self, err: &E, duration: Duration) {
        self.durations.push(duration);
        proof {
            self.log@ = self.log@.push((*err, duration));
        }
    }
}

/// A deferred computation that is pending until driven once: the smallest
/// shape of work an asynchronous callback can hand back.
pub struct Step {
    done: bool,
}

impl Step {
    /// A pending step, not yet driven.
    pub fn new() -> (s: Step)
        ensures
            s.wf(),
            !s.done(),
    {
        Step { done: false }
    }

    /// Whether the step has been driven to completion.
    pub fn is_done(&self) -> (b: bool)
        ensures
            b == self.done(),
    {
        self.done
    }
}

impl Deferred for Step {
    closed spec fn wf(&self) -> bool {
        true
    }

    closed spec fn done(&self) -> bool {
        self.done
    }

    fn run(&mut self) {
        self.done = true;
    }
}

/// An asynchronous notification callback that records what it observes: the
/// recording happens when the callback is invoked, and the deferred step it
/// returns completes the notification once driven.
pub struct AsyncRecorder<E> {
    inner: Recorder<E>,
}

impl<E> AsyncRecorder<E> {
    /// A fresh recorder that has seen no calls.
    pub fn new() -> (r: AsyncRecorder<E>)
        ensures
            r.wf(),
            r.calls() == Seq::<(E, Duration)>::empty(),
    {
        AsyncRecorder { inner: Recorder::new() }
    }

    /// How many calls the recorder has received.
    pub fn count(&self) -> (n: usize)
        requires
            self.wf(),
        ensures
            n == self.calls().len(),
    {
        self.inner.count()
    }

    /// The duration the `i`th call (oldest first) was issued with.
    pub fn duration_at(&self, i: usize) -> (d: Duration)
        requires
            self.wf(),
            i < self.calls().len(),
        ensures
            d == self.calls()[i as int].1,
    {
        self.inner.duration_at(i)
    }
}

impl<E> AsyncNotify<E> for AsyncRecorder<E> {
    type Fut = Step;

    closed spec fn wf(&self) -> bool {
        self.inner.wf()
    }

    closed spec fn calls(&self) -> Seq<(E, Duration)> {
        self.inner.calls()
    }

    fn call(&mut self, err: &E, duration: Duration) -> (fut: Step)
        ensures
            !fut.done(),
    {
        self.inner.call(err, duration);
        Step::new()
    }
}

} // verus!
