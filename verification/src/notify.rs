use vstd::prelude::*;

use crate::duration::Duration;

verus! {

/// The uniform notification interface: one operation, `notify`, invoked once
/// per failed attempt with the failure and the wait the retry loop chose.
///
/// The abstract state of a notifier is `history()`, the log of notifications
/// delivered so far. One call appends exactly one entry, holding exactly the
/// arguments it was given: nothing is skipped, repeated, reordered or
/// altered, whatever side effects the strategy performs.
pub trait Notify<E> {
    /// Whether the notifier's internal state is well formed; constructors
    /// establish it and `notify` preserves it.
    spec fn wf(&self) -> bool;

    /// The notifications delivered so far, oldest first: each entry is the
    /// error and the duration it was invoked with.
    spec fn history(&self) -> Seq<(E, Duration)>;

    /// Deliver one notification for the failure `err` and the upcoming wait
    /// `duration`, running whatever work the strategy entails to completion
    /// before returning.
    fn notify(&mut self, err: &E, duration: Duration)
        requires
            old(self).wf(),
        ensures
            final(self).wf(),
            final(self).history() == old(self).history().push((*err, duration)),
    ;
}

/// A synchronous notification callback: the shape
/// `(error reference, duration) -> ()`, run to completion within the call
/// itself. It may mutate its own state (a counter, a buffer, a connection
/// handle) on each call; `calls()` is the log of what it has been invoked
/// with.
pub trait SyncNotify<E> {
    /// Whether the callback's internal state is well formed.
    spec fn wf(&self) -> bool;

    /// The calls received so far, oldest first.
    spec fn calls(&self) -> Seq<(E, Duration)>;

    /// Invoke the callback once with the given error and duration.
    fn call(&mut self, err: &E, duration: Duration)
        requires
            old(self).wf(),
        ensures
            final(self).wf(),
            final(self).calls() == old(self).calls().push((*err, duration)),
    ;
}

/// A deferred computation: work begun by an asynchronous callback that is
/// finished only when its owner drives it to completion. Driving it is the
/// one suspension point of an asynchronous notification.
pub trait Deferred {
    /// Whether the deferred computation's state is well formed.
    spec fn wf(&self) -> bool;

    /// Whether the deferred work has run to completion.
    spec fn done(&self) -> bool;

    /// Drive the deferred work to completion; returns only once it is done.
    fn run(&mut self)
        requires
            old(self).wf(),
        ensures
            final(self).wf(),
            final(self).done(),
    ;
}

/// An asynchronous notification callback: invoked with the error and the
/// duration, it returns a deferred computation that must be driven to
/// completion before the notification counts as delivered.
pub trait AsyncNotify<E> {
    /// The deferred computation this callback produces.
    type Fut: Deferred;

    /// Whether the callback's internal state is well formed.
    spec fn wf(&self) -> bool;

    /// The calls received so far, oldest first.
    spec fn calls(&self) -> Seq<(E, Duration)>;

    /// Invoke the callback once with the given error and duration, obtaining
    /// the deferred remainder of the notification.
    fn call(&mut self, err: &E, duration: Duration) -> (fut: Self::Fut)
        requires
            old(self).wf(),
        ensures
            final(self).wf(),
            final(self).calls() == old(self).calls().push((*err, duration)),
            fut.wf(),
    ;
}

/// The dual-mode notifier: wraps either a synchronous callback or an
/// asynchronous one behind the single `Notify` interface, discriminated by a
/// runtime tag, so the retry loop holding it never needs to know which kind
/// it owns.
pub enum NotifyFn<S, A> {
    /// A synchronous callback; `notify` runs it directly and returns.
    Sync(S),
    /// An asynchronous callback; `notify` invokes it, then drives the
    /// deferred computation it returns to completion.
    Async(A),
}

impl<S, A> NotifyFn<S, A> {
    /// Wrap a synchronous callback.
    pub fn from_sync(f: S) -> (r: Self)
        ensures
            r == NotifyFn::<S, A>::Sync(f),
    {
        NotifyFn::Sync(f)
    }

    /// Wrap an asynchronous callback.
    pub fn from_async(f: A) -> (r: Self)
        ensures
            r == NotifyFn::<S, A>::Async(f),
    {
        NotifyFn::Async(f)
    }
}

impl<E, S: SyncNotify<E>, A: AsyncNotify<E>> Notify<E> for NotifyFn<S, A> {
    /// The wrapped callback's state is the notifier's state.
    open spec fn wf(&self) -> bool {
        match self {
            NotifyFn::Sync(f) => f.wf(),
            NotifyFn::Async(f) => f.wf(),
        }
    }

    /// Whichever mode the notifier holds, its history is exactly the wrapped
    /// callback's call log.
    open spec fn history(&self) -> Seq<(E, Duration)> {
        match self {
            NotifyFn::Sync(f) => f.calls(),
            NotifyFn::Async(f) => f.calls(),
        }
    }

    fn notify(&mut self, err: &E, duration: Duration)
        ensures
            *final(self) is Sync <==> *old(self) is Sync,
    {
        match self {
            NotifyFn::Sync(f) => f.call(err, duration),
            NotifyFn::Async(f) => {
                let mut fut = f.call(err, duration);
                fut.run();
            },
        }
    }
}

/// Mode transparency, synchronous side: a notifier wrapping a synchronous
/// callback is well formed exactly when the callback is, and its observable
/// history is exactly the callback's call log. Together with the contract of
/// `notify`, one call on such a notifier invokes the callback exactly once
/// with the error and duration it was given.
pub proof fn lemma_sync_mode_transparent<E, S: SyncNotify<E>, A: AsyncNotify<E>>(f: S)
    ensures
        NotifyFn::<S, A>::Sync(f).wf() == f.wf(),
        NotifyFn::<S, A>::Sync(f).history() == f.calls(),
{
}

/// Mode transparency, asynchronous side: a notifier wrapping an asynchronous
/// callback is well formed exactly when the callback is, and its observable
/// history is exactly the callback's call log. Together with the contract of
/// `notify`, one call on such a notifier invokes the callback exactly once
/// with the error and duration it was given, and returns only once the
/// deferred computation the callback handed back has been driven to
/// completion.
pub proof fn lemma_async_mode_transparent<E, S: SyncNotify<E>, A: AsyncNotify<E>>(f: A)
    ensures
        NotifyFn::<S, A>::Async(f).wf() == f.wf(),
        NotifyFn::<S, A>::Async(f).history() == f.calls(),
{
}

/// The errors and durations of equally many failed attempts, paired up in
/// the order they were issued.
pub open spec fn paired<E>(errs: Seq<E>, durations: Seq<Duration>) -> Seq<(E, Duration)> {
    Seq::new(errs.len(), |i: int| (errs[i], durations[i]))
}

/// Sequential-call driver: issue one notification per error, one call after
/// another against the same notifier, never overlapping. The history grows by
/// exactly the issued pairs, in order: no call is skipped or double-counted,
/// so a callback that counts its calls ends at exactly one increment per
/// attempt.
pub fn notify_seq<E, N: Notify<E>>(n: &mut N, errs: &Vec<E>, durations: &Vec<Duration>)
    requires
        old(n).wf(),
        errs@.len() == durations@.len(),
    ensures
        final(n).wf(),
        final(n).history() == old(n).history() + paired(errs@, durations@),
        final(n).history().len() == old(n).history().len() + errs@.len(),
{
    let ghost h0 = n.history();
    let ghost all = paired(errs@, durations@);
    let mut i: usize = 0;
    while i < errs.len()
        invariant
            n.wf(),
            i <= errs@.len(),
            errs@.len() == durations@.len(),
            h0 == old(n).history(),
            all == paired(errs@, durations@),
            n.history() == h0 + all.take(i as int),
        decreases errs@.len() - i,
    {
        n.notify(&errs[i], durations[i]);
        proof {
            assert(all[i as int] == (errs@[i as int], durations@[i as int]));
            assert((h0 + all.take(i as int)).push(all[i as int]) =~= h0 + all.take(i + 1));
        }
        i += 1;
    }
    proof {
        assert(all.take(errs@.len() as int) =~= all);
    }
}

} // verus!
