//! A cancellable future with asynchronous cleanup: while the main future
//! runs, a cancellation request drops it and switches to the cleanup future;
//! a completed main future skips the cleanup.

use vstd::prelude::*;

verus! {

#[derive(Copy, Clone, Debug, Eq, PartialEq, Structural)]
pub enum CancellableState {
    RunningMain,
    RunningCleanup,
    Done,
}

/// Which future a poll drives.
#[derive(Copy, Clone, Debug, Eq, PartialEq, Structural)]
pub enum PollTarget {
    Main,
    Cleanup,
}

/// The main and cleanup futures and the phase the pair is in.
pub struct Cancellable<M, C> {
    state: CancellableState,
    main: Option<M>,
    cleanup: Option<C>,
}

/// The transition of `begin_poll`: the phase after it, whether the main
/// future is dropped, and the future to poll.
pub open spec fn spec_begin_poll(state: CancellableState, cancel_requested: bool) -> (CancellableState, bool, PollTarget) {
    match state {
        CancellableState::RunningMain => if cancel_requested {
            (CancellableState::RunningCleanup, true, PollTarget::Cleanup)
        } else {
            (CancellableState::RunningMain, false, PollTarget::Main)
        },
        _ => (CancellableState::RunningCleanup, false, PollTarget::Cleanup),
    }
}

impl<M, C> Cancellable<M, C> {
    pub closed spec fn phase(&self) -> CancellableState {
        self.state
    }

    pub closed spec fn main_future(&self) -> Option<M> {
        self.main
    }

    pub closed spec fn cleanup_future(&self) -> Option<C> {
        self.cleanup
    }

    /// Each phase holds exactly the futures it may still poll.
    pub closed spec fn wf(&self) -> bool {
        match self.state {
            CancellableState::RunningMain => self.main is Some && self.cleanup is Some,
            CancellableState::RunningCleanup => self.main is None && self.cleanup is Some,
            CancellableState::Done => self.main is None && self.cleanup is None,
        }
    }

    /// Starts a poll, given whether the running task has a new cancellation
    /// request. Polling a finished pair is a caller error.
    pub fn begin_poll(&mut self, cancel_requested: bool) -> (r: PollTarget)
        requires
            old(self).wf(),
            old(self).phase() != CancellableState::Done,
        ensures
            final(self).wf(),
            (final(self).phase(), final(self).main_future() is None && old(self).main_future() is Some,
            r) == spec_begin_poll(old(self).phase(), cancel_requested),
            final(self).cleanup_future() == old(self).cleanup_future(),
            r == PollTarget::Main ==> final(self).main_future() == old(self).main_future(),
    {
        match self.state {
            CancellableState::RunningMain => {
                if cancel_requested {
                    self.main = None;
                    self.state = CancellableState::RunningCleanup;
                    PollTarget::Cleanup
                } else {
                    PollTarget::Main
                }
            },
            _ => PollTarget::Cleanup,
        }
    }

    /// The main future, for polling.
    pub fn main_mut(&mut self) -> (r: &mut M)
        requires
            old(self).main_future() is Some,
        ensures
            *r == old(self).main_future()->0,
            final(self).main_future() == Some(*final(r)),
            final(self).phase() == old(self).phase(),
            final(self).cleanup_future() == old(self).cleanup_future(),
    {
        self.main.as_mut().unwrap()
    }

    /// The cleanup future, for polling.
    pub fn cleanup_mut(&mut self) -> (r: &mut C)
        requires
            old(self).cleanup_future() is Some,
        ensures
            *r == old(self).cleanup_future()->0,
            final(self).cleanup_future() == Some(*final(r)),
            final(self).phase() == old(self).phase(),
            final(self).main_future() == old(self).main_future(),
    {
        self.cleanup.as_mut().unwrap()
    }

    /// Ends a poll that drove the main future, given its answer (`None` for
    /// pending): pending leaves the pair as it was and the pair is pending
    /// too; a value drops both futures (the cleanup never ran) and the pair
    /// is ready with `Some(value)`. The result is `None` for pending and
    /// `Some(output)` for ready.
    pub fn after_main_poll<V>(&mut self, polled: Option<V>) -> (r: Option<Option<V>>)
        requires
            old(self).wf(),
            old(self).phase() == CancellableState::RunningMain,
        ensures
            final(self).wf(),
            (final(self).phase(), r) == spec_after_main_poll(polled),
            polled is None ==> *final(self) == *old(self),
            polled is Some ==> final(self).main_future() is None && final(self).cleanup_future() is None,
    {
        match polled {
            None => None,
            Some(value) => {
                self.main = None;
                self.cleanup = None;
                self.state = CancellableState::Done;
                Some(Some(value))
            },
        }
    }

    /// Ends a poll that drove the cleanup future, given whether it finished:
    /// unfinished leaves the pair as it was and the pair is pending; finished
    /// drops the cleanup and the pair is ready with `None`.
    pub fn after_cleanup_poll<V>(&mut self, done: bool) -> (r: Option<Option<V>>)
        requires
            old(self).wf(),
            old(self).phase() == CancellableState::RunningCleanup,
        ensures
            final(self).wf(),
            (final(self).phase(), r) == spec_after_cleanup_poll::<V>(done),
            !done ==> *final(self) == *old(self),
            done ==> final(self).main_future() is None && final(self).cleanup_future() is None,
    {
        if done {
            self.cleanup = None;
            self.state = CancellableState::Done;
            Some(None)
        } else {
            None
        }
    }
}

/// The phase and answer after the main future answered `polled` (`None` for
/// pending); the answer is `None` for pending, `Some(output)` for ready.
pub open spec fn spec_after_main_poll<V>(polled: Option<V>) -> (CancellableState, Option<Option<V>>) {
    match polled {
        None => (CancellableState::RunningMain, None),
        Some(v) => (CancellableState::Done, Some(Some(v))),
    }
}

/// The phase and answer after the cleanup was polled.
pub open spec fn spec_after_cleanup_poll<V>(done: bool) -> (CancellableState, Option<Option<V>>) {
    if done {
        (CancellableState::Done, Some(None))
    } else {
        (CancellableState::RunningCleanup, None)
    }
}

/// One poll of the pair from `state`: `begin_poll` with the cancellation
/// request, then the ending for the future it chose, given what the main
/// future would answer and whether the cleanup would finish.
pub open spec fn spec_pair_poll<V>(
    state: CancellableState,
    cancel_requested: bool,
    main_polled: Option<V>,
    cleanup_done: bool,
) -> (CancellableState, Option<Option<V>>) {
    match spec_begin_poll(state, cancel_requested).2 {
        PollTarget::Main => spec_after_main_poll(main_polled),
        PollTarget::Cleanup => spec_after_cleanup_poll(cleanup_done),
    }
}

/// Without a cancellation request the pair answers as its main future does:
/// pending exactly while the main future is pending (and it stays with the
/// main future), ready with `Some(v)` when the main future yields `v`,
/// whatever the cleanup would do. With a request it answers as the cleanup
/// does, and `None` once the cleanup finishes.
pub proof fn lemma_pair_follows_main<V>(main_polled: Option<V>, cleanup_done: bool)
    ensures
        spec_pair_poll(CancellableState::RunningMain, false, main_polled, cleanup_done).1 is None
            <==> main_polled is None,
        main_polled is None ==> spec_pair_poll(
            CancellableState::RunningMain,
            false,
            main_polled,
            cleanup_done,
        ).0 == CancellableState::RunningMain,
        main_polled is Some ==> spec_pair_poll(
            CancellableState::RunningMain,
            false,
            main_polled,
            cleanup_done,
        ) == (CancellableState::Done, Some(main_polled)),
        spec_pair_poll(CancellableState::RunningMain, true, main_polled, cleanup_done)
            == spec_after_cleanup_poll::<V>(cleanup_done),
        cleanup_done ==> spec_pair_poll(
            CancellableState::RunningMain,
            true,
            main_polled,
            cleanup_done,
        ).1 == Some(None::<V>),
{
}

/// Pairs a main future with the cleanup that runs if it is cancelled.
pub fn try_finally<M, C>(main: M, cleanup: C) -> (r: Cancellable<M, C>)
    ensures
        r.wf(),
        r.phase() == CancellableState::RunningMain,
        r.main_future() == Some(main),
        r.cleanup_future() == Some(cleanup),
{
    Cancellable { state: CancellableState::RunningMain, main: Some(main), cleanup: Some(cleanup) }
}

/// Cancellation is one-way: once the cleanup runs, later polls keep driving
/// the cleanup whatever is requested, and the main future is never polled
/// again; without a request the main future keeps running.
pub proof fn lemma_cancel_one_way(c: bool)
    ensures
        spec_begin_poll(CancellableState::RunningCleanup, c).2 == PollTarget::Cleanup,
        spec_begin_poll(CancellableState::RunningCleanup, c).0 == CancellableState::RunningCleanup,
        spec_begin_poll(CancellableState::RunningMain, true) == (
            CancellableState::RunningCleanup,
            true,
            PollTarget::Cleanup,
        ),
        spec_begin_poll(CancellableState::RunningMain, false) == (
            CancellableState::RunningMain,
            false,
            PollTarget::Main,
        ),
{
}

} // verus!
