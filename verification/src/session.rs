//! The session lifecycle handle.
//!
//! A handle owns one running connection instance: the account id and the
//! background task slot.  At most one background task is associated with a
//! handle at a time; installing a new one requires the slot to be empty.
//! Waiting for the task to end and looping forever are the embedding
//! program's concern — it takes the task out, awaits it, and reconnects.

use vstd::prelude::*;

use crate::engine::Engine;
use crate::errors::LoginError;
use crate::reconnect::{run_reconnect, ReconnectObserver};
use crate::store::Store;

verus! {

/// The handle of one running connection instance.
pub struct AliveHandle<T> {
    /// The account this session belongs to.
    uin: i64,
    /// The background connection task, while one is installed.
    task: Option<T>,
}

impl<T> AliveHandle<T> {
    /// A handle for a freshly started session.
    pub fn new(uin: i64, task: T) -> (h: AliveHandle<T>)
        ensures
            h.uin() == uin,
            h.has_task(),
    {
        AliveHandle { uin, task: Some(task) }
    }

    /// The account this session belongs to.
    pub closed spec fn uin(&self) -> i64 {
        self.uin
    }

    /// The installed background task, if any.
    pub closed spec fn current_task(&self) -> Option<T> {
        self.task
    }

    /// Whether a background task is installed.
    pub open spec fn has_task(&self) -> bool {
        self.current_task() is Some
    }

    /// The account this session belongs to.
    pub fn account(&self) -> (u: i64)
        ensures
            u == self.uin(),
    {
        self.uin
    }

    /// Takes the background task out for awaiting.  The slot is empty
    /// afterwards, so taking again yields nothing: a caller that waits
    /// through this sees a completed wait return immediately the second
    /// time rather than blocking again.
    pub fn take_task(&mut self) -> (t: Option<T>)
        ensures
            !final(self).has_task(),
            final(self).uin() == old(self).uin(),
            t == old(self).current_task(),
    {
        let mut t: Option<T> = None;
        core::mem::swap(&mut t, &mut self.task);
        t
    }

    /// Reconnects after a disconnect: a no-op while a background task is
    /// still installed; otherwise the reconnection protocol runs under
    /// its retry budget and the resulting task is installed.
    pub fn reconnect<E: Engine<Task = T>, S: Store, O: ReconnectObserver>(
        &mut self,
        engine: &mut E,
        store: &mut S,
        observer: &mut O,
        max_attempts: usize,
    ) -> (r: Result<(), LoginError>)
        ensures
            final(self).uin() == old(self).uin(),
            old(self).has_task() ==> r is Ok && *final(self) == *old(self),
            r is Ok ==> final(self).has_task(),
            r matches Err(e) ==> *final(self) == *old(self) && (e is NonRecoverableDisconnect
                || e is Io || e is ResumeUnavailable || e is Auth),
    {
        if self.task.is_some() {
            return Ok(());
        }
        let mut budget = crate::retry::RetryState::new(max_attempts);
        match run_reconnect(engine, store, observer, self.uin, &mut budget) {
            Ok(task) => {
                self.task = Some(task);
                Ok(())
            },
            Err(e) => Err(e),
        }
    }
}

} // verus!
