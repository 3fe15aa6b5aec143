//! The per-thread session contract of the native extraction subsystem.
//!
//! Before a thread may issue an extraction call it must initialize its own
//! execution context under one of two apartment disciplines, and it must
//! tear that context down exactly once when its work is drained. [`Worker`]
//! is the state machine each participating thread steps through; its
//! contracts make a second initialization, a call without a live session,
//! and a missing or doubled teardown unrepresentable.

use vstd::prelude::*;

use crate::errors::ExtractError;

verus! {

/// The two mutually exclusive apartment disciplines of the native
/// subsystem.
///
/// `SerializedApartment` admits at most one native call in flight on the
/// initialized thread and is the discipline of the single-threaded
/// strategy. `ConcurrentApartment` lets many threads initialize and call
/// concurrently; every such thread must run its own multi-threaded
/// initialization exactly once.
#[derive(Clone, Copy, Debug, PartialEq, Eq, Structural)]
pub enum SessionMode {
    SerializedApartment,
    ConcurrentApartment,
}

/// The lifecycle of one worker: `Idle` before initialization,
/// `SessionActive` while extraction calls may be issued, `Draining` once no
/// further work will be dispatched to it, and `Closed` after teardown (or
/// after a failed initialization).
#[derive(Clone, Copy, Debug, PartialEq, Eq, Structural)]
pub enum SessionPhase {
    Idle,
    SessionActive,
    Draining,
    Closed,
}

/// One participating worker thread of a dispatch run.
///
/// The worker records how often it initialized (`begun`) and tore down
/// (`ended`) its native session, how many extraction calls it issued
/// (`extracts`), and how many of those succeeded (`indexed`).
#[derive(Clone, Copy, Debug, PartialEq, Eq, Structural)]
pub struct Worker {
    pub mode: SessionMode,
    pub phase: SessionPhase,
    pub begun: u64,
    pub ended: u64,
    pub extracts: u64,
    pub indexed: u64,
}

impl Worker {
    /// The lifecycle invariant every reachable worker state satisfies.
    pub open spec fn wf(self) -> bool {
        &&& self.begun <= 1
        &&& self.ended <= self.begun
        &&& self.indexed <= self.extracts
        &&& self.phase is Idle ==> self.begun == 0 && self.ended == 0 && self.extracts == 0
        &&& self.phase is SessionActive ==> self.begun == 1 && self.ended == 0
        &&& self.phase is Draining ==> self.begun == 1 && self.ended == 0
        &&& self.phase is Closed ==> self.ended == self.begun
        &&& self.extracts > 0 ==> self.begun == 1
    }

    /// A fresh worker that has not initialized a session and has done no
    /// work.
    pub fn new(mode: SessionMode) -> (w: Worker)
        ensures
            w.wf(),
            w.mode == mode,
            w.phase is Idle,
            w.begun == 0,
            w.ended == 0,
            w.extracts == 0,
            w.indexed == 0,
    {
        Worker {
            mode,
            phase: SessionPhase::Idle,
            begun: 0,
            ended: 0,
            extracts: 0,
            indexed: 0,
        }
    }

    /// Records a successful per-thread initialization; the one transition
    /// that opens a session, possible only before any other.
    pub fn begin_succeeded(&mut self)
        requires
            old(self).wf(),
            old(self).phase is Idle,
        ensures
            final(self).wf(),
            final(self).phase is SessionActive,
            final(self).begun == 1,
            final(self).ended == 0,
            final(self).extracts == 0,
            final(self).indexed == old(self).indexed,
            final(self).mode == old(self).mode,
    {
        self.phase = SessionPhase::SessionActive;
        self.begun = 1;
    }

    /// Records a failed per-thread initialization: the worker closes
    /// without ever holding a session and contributes no work.
    pub fn begin_failed(&mut self)
        requires
            old(self).wf(),
            old(self).phase is Idle,
        ensures
            final(self).wf(),
            final(self).phase is Closed,
            final(self).begun == 0,
            final(self).ended == 0,
            final(self).extracts == 0,
            final(self).indexed == old(self).indexed,
            final(self).mode == old(self).mode,
    {
        self.phase = SessionPhase::Closed;
    }

    /// Records one extraction call issued under the live session, counted
    /// as a success exactly when `ok` holds.
    pub fn record_extract(&mut self, ok: bool)
        requires
            old(self).wf(),
            old(self).phase is SessionActive,
            old(self).extracts < u64::MAX,
            old(self).indexed < u64::MAX,
        ensures
            final(self).wf(),
            final(self).phase is SessionActive,
            final(self).extracts == old(self).extracts + 1,
            final(self).indexed == old(self).indexed + (if ok { 1int } else { 0int }),
            final(self).begun == old(self).begun,
            final(self).ended == old(self).ended,
            final(self).mode == old(self).mode,
    {
        self.extracts = self.extracts + 1;
        if ok {
            self.indexed = self.indexed + 1;
        }
    }

    /// Marks the worker's assigned work as fully dispatched; no further
    /// extraction call may be issued on it.
    pub fn drain(&mut self)
        requires
            old(self).wf(),
            old(self).phase is SessionActive,
        ensures
            final(self).wf(),
            final(self).phase is Draining,
            final(self).begun == old(self).begun,
            final(self).ended == old(self).ended,
            final(self).extracts == old(self).extracts,
            final(self).indexed == old(self).indexed,
            final(self).mode == old(self).mode,
    {
        self.phase = SessionPhase::Draining;
    }

    /// Records the per-thread teardown; the one transition that closes a
    /// drained session, possible only once.
    pub fn end_session(&mut self)
        requires
            old(self).wf(),
            old(self).phase is Draining,
        ensures
            final(self).wf(),
            final(self).phase is Closed,
            final(self).begun == 1,
            final(self).ended == 1,
            final(self).extracts == old(self).extracts,
            final(self).indexed == old(self).indexed,
            final(self).mode == old(self).mode,
    {
        self.phase = SessionPhase::Closed;
        self.ended = 1;
    }
}

/// The worker indices whose initialization succeeded, in order.
pub open spec fn live_indices(init_ok: Seq<bool>) -> Seq<usize>
    decreases init_ok.len(),
{
    if init_ok.len() == 0 {
        Seq::empty()
    } else {
        live_indices(init_ok.drop_last()) + (if init_ok.last() {
            seq![(init_ok.len() - 1) as usize]
        } else {
            Seq::empty()
        })
    }
}

/// A run has live workers exactly when at least one initialization
/// succeeded: the run is fatal only when every worker failed.
pub proof fn lemma_live_indices_nonempty(init_ok: Seq<bool>)
    ensures
        live_indices(init_ok).len() > 0 <==> exists|j: int| 0 <= j < init_ok.len() && init_ok[j],
    decreases init_ok.len(),
{
    if init_ok.len() > 0 {
        lemma_live_indices_nonempty(init_ok.drop_last());
        assert(forall|j: int|
            0 <= j < init_ok.len() - 1 ==> init_ok.drop_last()[j] == init_ok[j]);
        if init_ok.last() {
            assert(init_ok[init_ok.len() - 1]);
        }
    }
}

/// Decides how a run proceeds once every worker has attempted its own
/// initialization: a failed worker merely contributes zero work, and only
/// a run in which every worker failed is itself a failure, reported as a
/// failed session initialization. On success the run gets the list of
/// live workers, the ones that carry the batch.
pub fn plan_participants(init_ok: &Vec<bool>) -> (r: Result<Vec<usize>, ExtractError>)
    ensures
        r is Ok <==> live_indices(init_ok@).len() > 0,
        r matches Ok(live) ==> live@ == live_indices(init_ok@),
        r is Err ==> r == Err::<Vec<usize>, ExtractError>(
            ExtractError::SessionInitFailed,
        ),
{
    let mut live: Vec<usize> = Vec::new();
    for i in 0..init_ok.len()
        invariant
            live@ == live_indices(init_ok@.take(i as int)),
    {
        if init_ok[i] {
            live.push(i);
        }
        proof {
            assert(init_ok@.take(i + 1).drop_last() =~= init_ok@.take(i as int));
        }
    }
    proof {
        assert(init_ok@.take(init_ok@.len() as int) =~= init_ok@);
    }
    if live.len() > 0 {
        Ok(live)
    } else {
        Err(ExtractError::SessionInitFailed)
    }
}

/// A closed worker has paired its session calls: as many teardowns as
/// initializations, never more than one of each, and a worker that issued
/// any extraction call initialized and tore down exactly once.
pub proof fn lemma_session_pairing(w: Worker)
    requires
        w.wf(),
        w.phase is Closed,
    ensures
        w.ended == w.begun,
        w.begun <= 1,
        w.extracts > 0 ==> w.begun == 1 && w.ended == 1,
{
}

} // verus!
