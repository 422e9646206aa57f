//! Guest-side bookkeeping of a sync object whose signals travel through the
//! command rings: where it was last submitted, which timeline point is
//! known reached, and which one a submitted signal will reach.
//!
//! Blocking waits alternate with decisions: the decision steps stand here;
//! the caller holds the tracker under a lock, sleeps on a condition variable
//! when a step says to wait, and runs the step again when woken or when the
//! deadline passes.
use vstd::prelude::*;

use crate::error::Error;

verus! {

/// Submission state of a sync object.
#[derive(Debug, Clone, Copy, PartialEq, Eq, Structural)]
pub enum SyncObjectState {
    /// No signal was submitted yet.
    Unsubmitted,
    /// Signaled from the CPU.
    CpuSignaled,
    /// Holds a fence imported from elsewhere.
    Imported,
    /// A signal was submitted on ring `ring_idx`; `fence_created` tells
    /// whether a guest fence was asked for it.
    Submitted { ring_idx: u32, fence_created: bool },
}

/// A sync object operation recorded in a submission.
#[derive(Debug, Clone, Copy, PartialEq, Eq, Structural)]
pub enum VirtioSyncOp {
    /// The submission waits on the object.
    Wait { ring_idx: u32, seqno: u32 },
    /// The submission signals the object, at timeline `point`.
    Signal { ring_idx: u32, seqno: u32, point: u64 },
}

/// The tracked values of a sync object.
#[derive(Debug, Clone, Copy, PartialEq, Eq, Structural)]
pub struct SyncObjectInner {
    pub state: SyncObjectState,
    /// Highest timeline point known reached.
    pub timeline_point: u64,
    /// Highest timeline point that a signal submitted or performed will reach.
    pub pending_point: u64,
    /// Ring of the last submission that used the object.
    pub last_used_ring_idx: u32,
    /// Sequence number of that submission.
    pub last_used_seqno: u32,
}

/// `inner` after recording `op`.
pub open spec fn spec_record(inner: SyncObjectInner, op: VirtioSyncOp) -> SyncObjectInner {
    match op {
        VirtioSyncOp::Wait { ring_idx, seqno } => SyncObjectInner {
            last_used_ring_idx: ring_idx,
            last_used_seqno: seqno,
            ..inner
        },
        VirtioSyncOp::Signal { ring_idx, seqno, point } => SyncObjectInner {
            last_used_ring_idx: ring_idx,
            last_used_seqno: seqno,
            state: SyncObjectState::Submitted { ring_idx, fence_created: false },
            pending_point: if point > inner.pending_point {
                point
            } else {
                inner.pending_point
            },
            ..inner
        },
    }
}

/// `inner` after the GPU wait for its pending signal completed.
pub open spec fn spec_complete(inner: SyncObjectInner) -> SyncObjectInner {
    if inner.pending_point > inner.timeline_point {
        SyncObjectInner { timeline_point: inner.pending_point, ..inner }
    } else {
        inner
    }
}

/// `inner` after a signal from the CPU, at `point` for a timeline.
pub open spec fn spec_mark_cpu(inner: SyncObjectInner, point: Option<u64>) -> SyncObjectInner {
    match point {
        Some(pt) => SyncObjectInner {
            timeline_point: if pt > inner.timeline_point {
                pt
            } else {
                inner.timeline_point
            },
            pending_point: if pt > inner.pending_point {
                pt
            } else {
                inner.pending_point
            },
            state: SyncObjectState::CpuSignaled,
            ..inner
        },
        None => SyncObjectInner { state: SyncObjectState::CpuSignaled, ..inner },
    }
}

/// `inner` after a fence was imported into the object.
pub open spec fn spec_mark_imported(inner: SyncObjectInner) -> SyncObjectInner {
    SyncObjectInner { state: SyncObjectState::Imported, ..inner }
}

/// The highest timeline point that the object reached or will reach.
pub open spec fn spec_query(inner: SyncObjectInner) -> u64 {
    if inner.timeline_point >= inner.pending_point {
        inner.timeline_point
    } else {
        inner.pending_point
    }
}

/// What a submission wait does in `inner`: `None` to keep waiting,
/// otherwise its result; `deadline_passed` tells whether the wait ran out.
pub open spec fn spec_submission_step(inner: SyncObjectInner, timeout_ns: u64, deadline_passed: bool) -> Option<Result<SyncObjectState, Error>> {
    if inner.state == SyncObjectState::Unsubmitted {
        if timeout_ns == 0 || deadline_passed {
            Some(Err(Error::TimedOut))
        } else {
            None
        }
    } else {
        match inner.state {
            SyncObjectState::Submitted { ring_idx, fence_created: false } => Some(
                Ok(SyncObjectState::Submitted { ring_idx, fence_created: true }),
            ),
            _ => Some(Ok(inner.state)),
        }
    }
}

/// What a wait for timeline `point` does in `inner`: `None` to keep waiting,
/// otherwise its result, `true` when the point is known reached, `false`
/// when the caller should now wait on the GPU fence.
pub open spec fn spec_timeline_step(inner: SyncObjectInner, point: u64, timeout_ns: u64, deadline_passed: bool) -> Option<Result<bool, Error>> {
    if point == 0 || inner.timeline_point >= point {
        Some(Ok(true))
    } else if inner.pending_point >= point {
        Some(Ok(false))
    } else if timeout_ns == 0 || deadline_passed {
        Some(Err(Error::TimedOut))
    } else {
        None
    }
}

/// Tracks the submission state and timeline points of a sync object.
pub struct SyncObjectTracker {
    inner: SyncObjectInner,
}

impl SyncObjectTracker {
    /// The tracked values.
    pub closed spec fn spec_inner(&self) -> SyncObjectInner {
        self.inner
    }

    /// A pending signal is never behind the reached point.
    pub open spec fn wf(&self) -> bool {
        self.spec_inner().pending_point >= self.spec_inner().timeline_point
    }

    /// A tracker at `initial_point`: signaled from the CPU when the point is
    /// above 0, unsubmitted otherwise; nothing used yet.
    pub fn new(initial_point: u64) -> (t: SyncObjectTracker)
        ensures
            t.wf(),
            t.spec_inner() == (SyncObjectInner {
                state: if initial_point > 0 {
                    SyncObjectState::CpuSignaled
                } else {
                    SyncObjectState::Unsubmitted
                },
                timeline_point: initial_point,
                pending_point: initial_point,
                last_used_ring_idx: 0,
                last_used_seqno: 0,
            }),
    {
        let initial_state = if initial_point > 0 {
            SyncObjectState::CpuSignaled
        } else {
            SyncObjectState::Unsubmitted
        };
        SyncObjectTracker {
            inner: SyncObjectInner {
                state: initial_state,
                timeline_point: initial_point,
                pending_point: initial_point,
                last_used_ring_idx: 0,
                last_used_seqno: 0,
            },
        }
    }

    /// Ring and sequence number of the last submission that used the
    /// object, with its state.
    pub fn last_used_ring_and_seqno(&self) -> (r: (u32, u32, SyncObjectState))
        ensures
            r == (
                self.spec_inner().last_used_ring_idx,
                self.spec_inner().last_used_seqno,
                self.spec_inner().state,
            ),
    {
        (self.inner.last_used_ring_idx, self.inner.last_used_seqno, self.inner.state)
    }

    /// Whether the object holds an imported fence.
    pub fn has_imported_fence(&self) -> (b: bool)
        ensures
            b == (self.spec_inner().state == SyncObjectState::Imported),
    {
        self.inner.state == SyncObjectState::Imported
    }

    /// Ring of the submitted signal, 0 when none is submitted.
    pub fn last_ring_idx(&self) -> (r: u32)
        ensures
            r == (match self.spec_inner().state {
                SyncObjectState::Submitted { ring_idx, .. } => ring_idx,
                _ => 0,
            }),
    {
        match self.inner.state {
            SyncObjectState::Submitted { ring_idx, .. } => ring_idx,
            _ => 0,
        }
    }

    /// Records that a submission used the object; a signal makes it
    /// submitted on that ring, with no fence asked for yet, and raises the
    /// pending point to the signaled point.
    pub fn record_submission(&mut self, op: VirtioSyncOp)
        requires
            old(self).wf(),
        ensures
            final(self).wf(),
            final(self).spec_inner() == spec_record(old(self).spec_inner(), op),
    {
        match op {
            VirtioSyncOp::Wait { ring_idx, seqno } => {
                self.inner.last_used_ring_idx = ring_idx;
                self.inner.last_used_seqno = seqno;
            },
            VirtioSyncOp::Signal { ring_idx, seqno, point } => {
                self.inner.last_used_ring_idx = ring_idx;
                self.inner.last_used_seqno = seqno;
                self.inner.state = SyncObjectState::Submitted { ring_idx, fence_created: false };
                if point > self.inner.pending_point {
                    self.inner.pending_point = point;
                }
            },
        }
    }

    /// One step of waiting until a signal is submitted. While unsubmitted,
    /// fails with `TimedOut` when `timeout_ns` is 0 or `deadline_passed`,
    /// and otherwise returns `Ok(Unsubmitted)`: the caller waits and steps
    /// again. Once submitted with no fence asked for, calls
    /// `create_fence_for_ring` with the ring, fails with its error or marks
    /// the fence created. Returns the state.
    pub fn wait_for_submission<F: FnOnce(u32) -> Result<(), Error>>(&mut self, timeout_ns: u64, deadline_passed: bool, create_fence_for_ring: F) -> (r: Result<SyncObjectState, Error>)
        requires
            old(self).wf(),
            forall|ring_idx: u32| call_requires(create_fence_for_ring, (ring_idx,)),
        ensures
            final(self).wf(),
            exists|fence_ok: bool|
                final(self).spec_inner() == spec_apply(old(self).spec_inner(), TrackerCall::WaitForSubmission { fence_ok }),
            ({
                let inner = old(self).spec_inner();
                match inner.state {
                    SyncObjectState::Submitted { ring_idx, fence_created: false } => exists|
                        fr: Result<(), Error>,
                    |
                        {
                            &&& call_ensures(create_fence_for_ring, (ring_idx,), fr)
                            &&& fr is Err ==> r == Err::<SyncObjectState, Error>(fr->Err_0)
                                && final(self).spec_inner() == inner
                            &&& fr is Ok ==> Some(r) == spec_submission_step(inner, timeout_ns, deadline_passed)
                                && final(self).spec_inner() == (SyncObjectInner {
                                state: r->Ok_0,
                                ..inner
                            })
                        },
                    _ => final(self).spec_inner() == inner && (match spec_submission_step(
                        inner,
                        timeout_ns,
                        deadline_passed,
                    ) {
                        Some(res) => r == res,
                        None => r == Ok::<SyncObjectState, Error>(SyncObjectState::Unsubmitted),
                    }),
                }
            }),
    {
        let ghost before = self.inner;
        if self.inner.state == SyncObjectState::Unsubmitted {
            assert(self.inner == spec_apply(before, TrackerCall::WaitForSubmission { fence_ok: false }));
            if timeout_ns == 0 || deadline_passed {
                return Err(Error::TimedOut);
            }
            return Ok(SyncObjectState::Unsubmitted);
        }
        match self.inner.state {
            SyncObjectState::Submitted { ring_idx, fence_created } => {
                if !fence_created {
                    let fr = create_fence_for_ring(ring_idx);
                    match fr {
                        Err(e) => {
                            assert(self.inner == spec_apply(before, TrackerCall::WaitForSubmission { fence_ok: false }));
                            return Err(e);
                        },
                        Ok(()) => {},
                    }
                    self.inner.state = SyncObjectState::Submitted { ring_idx, fence_created: true };
                    assert(self.inner == spec_apply(before, TrackerCall::WaitForSubmission { fence_ok: true }));
                } else {
                    assert(self.inner == spec_apply(before, TrackerCall::WaitForSubmission { fence_ok: true }));
                }
            },
            _ => {
                assert(self.inner == spec_apply(before, TrackerCall::WaitForSubmission { fence_ok: true }));
            },
        }
        Ok(self.inner.state)
    }

    /// One step of waiting until timeline `point` is reached or a signal
    /// for it is pending: `Some(true)` when it is known reached (always for
    /// point 0), `Some(false)` when only a pending signal covers it, a
    /// `TimedOut` failure when neither holds and `timeout_ns` is 0 or
    /// `deadline_passed`, and `None` when the caller should wait and step
    /// again.
    pub fn wait_for_timeline_point(&self, point: u64, timeout_ns: u64, deadline_passed: bool) -> (r: Result<Option<bool>, Error>)
        ensures
            (match spec_timeline_step(self.spec_inner(), point, timeout_ns, deadline_passed) {
                Some(Ok(b)) => r == Ok::<Option<bool>, Error>(Some(b)),
                Some(Err(e)) => r == Err::<Option<bool>, Error>(e),
                None => r == Ok::<Option<bool>, Error>(None),
            }),
    {
        if point == 0 {
            return Ok(Some(true));
        }
        if self.inner.timeline_point >= point {
            return Ok(Some(true));
        }
        if self.inner.pending_point >= point {
            return Ok(Some(false));
        }
        if timeout_ns == 0 || deadline_passed {
            return Err(Error::TimedOut);
        }
        Ok(None)
    }

    /// Records that the GPU wait for the pending signal completed: the
    /// reached point catches up with the pending one.
    pub fn complete_gpu_wait(&mut self)
        requires
            old(self).wf(),
        ensures
            final(self).wf(),
            final(self).spec_inner() == spec_complete(old(self).spec_inner()),
    {
        if self.inner.pending_point > self.inner.timeline_point {
            self.inner.timeline_point = self.inner.pending_point;
        }
    }

    /// Records a signal from the CPU, at `point` for a timeline: both points
    /// rise to it, and the state becomes CPU-signaled.
    pub fn mark_cpu_signaled(&mut self, point: Option<u64>) -> (r: Result<(), Error>)
        requires
            old(self).wf(),
        ensures
            final(self).wf(),
            r is Ok,
            final(self).spec_inner() == spec_mark_cpu(old(self).spec_inner(), point),
    {
        if let Some(pt) = point {
            if pt > self.inner.timeline_point {
                self.inner.timeline_point = pt;
            }
            if pt > self.inner.pending_point {
                self.inner.pending_point = pt;
            }
        }
        self.inner.state = SyncObjectState::CpuSignaled;
        Ok(())
    }

    /// Records that a fence was imported into the object.
    pub fn mark_imported(&mut self) -> (r: Result<(), Error>)
        requires
            old(self).wf(),
        ensures
            final(self).wf(),
            r is Ok,
            final(self).spec_inner() == spec_mark_imported(old(self).spec_inner()),
    {
        self.inner.state = SyncObjectState::Imported;
        Ok(())
    }

    /// The highest timeline point that the object reached or will reach.
    pub fn timeline_query(&self) -> (r: Result<u64, Error>)
        ensures
            r == Ok::<u64, Error>(spec_query(self.spec_inner())),
    {
        let t = self.inner.timeline_point;
        let p = self.inner.pending_point;
        Ok(if t >= p {
            t
        } else {
            p
        })
    }
}

/// In a well-formed tracker the query answers the pending point.
pub proof fn lemma_query_is_pending(inner: SyncObjectInner)
    requires
        inner.pending_point >= inner.timeline_point,
    ensures
        spec_query(inner) == inner.pending_point,
{
}

/// No operation moves either timeline point back, so the query never
/// decreases.
pub proof fn lemma_points_never_decrease(inner: SyncObjectInner, op: VirtioSyncOp, point: Option<u64>)
    ensures
        spec_record(inner, op).timeline_point == inner.timeline_point,
        spec_record(inner, op).pending_point >= inner.pending_point,
        spec_complete(inner).timeline_point >= inner.timeline_point,
        spec_complete(inner).pending_point == inner.pending_point,
        spec_mark_cpu(inner, point).timeline_point >= inner.timeline_point,
        spec_mark_cpu(inner, point).pending_point >= inner.pending_point,
        spec_mark_imported(inner).timeline_point == inner.timeline_point,
        spec_mark_imported(inner).pending_point == inner.pending_point,
        spec_query(spec_record(inner, op)) >= spec_query(inner),
        spec_query(spec_complete(inner)) >= spec_query(inner),
        spec_query(spec_mark_cpu(inner, point)) >= spec_query(inner),
        spec_query(spec_mark_imported(inner)) == spec_query(inner),
{
}

/// A signal, submitted or performed from the CPU, at `point` is covered by
/// the query from then on.
pub proof fn lemma_signaled_point_is_covered(inner: SyncObjectInner, ring_idx: u32, seqno: u32, point: u64)
    ensures
        spec_query(spec_record(inner, VirtioSyncOp::Signal { ring_idx, seqno, point })) >= point,
        spec_query(spec_mark_cpu(inner, Some(point))) >= point,
        spec_mark_cpu(inner, Some(point)).timeline_point >= point,
{
}

/// Once the GPU wait completed, a timeline wait for any point that was
/// pending succeeds at once with the point reached.
pub proof fn lemma_completed_wait_reaches_pending(inner: SyncObjectInner, point: u64, timeout_ns: u64, deadline_passed: bool)
    requires
        inner.pending_point >= inner.timeline_point,
        point <= inner.pending_point,
    ensures
        spec_timeline_step(spec_complete(inner), point, timeout_ns, deadline_passed) == Some(
            Ok::<bool, Error>(true),
        ),
{
}

/// A submission wait never asks for a second fence: once the fence was
/// created, the step returns the state unchanged.
pub proof fn lemma_fence_created_once(inner: SyncObjectInner, ring_idx: u32, timeout_ns: u64, deadline_passed: bool)
    requires
        inner.state == (SyncObjectState::Submitted { ring_idx, fence_created: true }),
    ensures
        spec_submission_step(inner, timeout_ns, deadline_passed) == Some(
            Ok::<SyncObjectState, Error>(inner.state),
        ),
{
}

/// A call that changes a tracker, as a sequence of calls sees it.
#[derive(Debug, Clone, Copy, PartialEq, Eq, Structural)]
pub enum TrackerCall {
    /// `record_submission(op)`.
    Record(VirtioSyncOp),
    /// A step of `wait_for_submission` whose fence request, if it made one,
    /// succeeded when `fence_ok` holds.
    WaitForSubmission { fence_ok: bool },
    /// `complete_gpu_wait()`.
    CompleteGpuWait,
    /// `mark_cpu_signaled(point)`.
    MarkCpuSignaled(Option<u64>),
    /// `mark_imported()`.
    MarkImported,
}

/// `inner` after `call`, as each method's contract gives it.
pub open spec fn spec_apply(inner: SyncObjectInner, call: TrackerCall) -> SyncObjectInner {
    match call {
        TrackerCall::Record(op) => spec_record(inner, op),
        TrackerCall::WaitForSubmission { fence_ok } => match inner.state {
            SyncObjectState::Submitted { ring_idx, fence_created: false } => if fence_ok {
                SyncObjectInner { state: SyncObjectState::Submitted { ring_idx, fence_created: true }, ..inner }
            } else {
                inner
            },
            _ => inner,
        },
        TrackerCall::CompleteGpuWait => spec_complete(inner),
        TrackerCall::MarkCpuSignaled(point) => spec_mark_cpu(inner, point),
        TrackerCall::MarkImported => spec_mark_imported(inner),
    }
}

/// `inner` after `calls`, in order.
pub open spec fn spec_run(inner: SyncObjectInner, calls: Seq<TrackerCall>) -> SyncObjectInner
    decreases calls.len(),
{
    if calls.len() == 0 {
        inner
    } else {
        spec_apply(spec_run(inner, calls.drop_last()), calls.last())
    }
}

/// The operation of the last `record_submission` among `calls`, if any.
pub open spec fn last_record(calls: Seq<TrackerCall>) -> Option<VirtioSyncOp>
    decreases calls.len(),
{
    if calls.len() == 0 {
        None
    } else {
        match calls.last() {
            TrackerCall::Record(op) => Some(op),
            _ => last_record(calls.drop_last()),
        }
    }
}

/// Whether `call` sets the submission state to another kind: a submitted
/// signal, a signal from the CPU or an imported fence.
pub open spec fn sets_state(call: TrackerCall) -> bool {
    match call {
        TrackerCall::Record(VirtioSyncOp::Signal { .. }) => true,
        TrackerCall::MarkCpuSignaled(_) => true,
        TrackerCall::MarkImported => true,
        _ => false,
    }
}

/// The last call among `calls` that sets the state, if any.
pub open spec fn last_state_call(calls: Seq<TrackerCall>) -> Option<TrackerCall>
    decreases calls.len(),
{
    if calls.len() == 0 {
        None
    } else if sets_state(calls.last()) {
        Some(calls.last())
    } else {
        last_state_call(calls.drop_last())
    }
}

/// The ring and sequence number that the tracker reports after any calls
/// are those of the last recorded submission, or the ones it had before
/// when none was recorded.
pub proof fn lemma_last_used_is_last_recorded(inner: SyncObjectInner, calls: Seq<TrackerCall>)
    ensures
        (spec_run(inner, calls).last_used_ring_idx, spec_run(inner, calls).last_used_seqno) == (match last_record(calls) {
            Some(VirtioSyncOp::Wait { ring_idx, seqno }) => (ring_idx, seqno),
            Some(VirtioSyncOp::Signal { ring_idx, seqno, .. }) => (ring_idx, seqno),
            None => (inner.last_used_ring_idx, inner.last_used_seqno),
        }),
    decreases calls.len(),
{
    if calls.len() > 0 {
        lemma_last_used_is_last_recorded(inner, calls.drop_last());
    }
}

/// After any calls, the tracker holds an imported fence exactly when the
/// last call that set its state imported one, or, when no call set it, when
/// it held one before.
pub proof fn lemma_imported_iff_last_import(inner: SyncObjectInner, calls: Seq<TrackerCall>)
    ensures
        (spec_run(inner, calls).state == SyncObjectState::Imported) == (match last_state_call(calls) {
            Some(c) => c == TrackerCall::MarkImported,
            None => inner.state == SyncObjectState::Imported,
        }),
    decreases calls.len(),
{
    if calls.len() > 0 {
        lemma_imported_iff_last_import(inner, calls.drop_last());
    }
}

/// Over any calls a well-formed tracker stays well formed and its timeline
/// query never goes back.
pub proof fn lemma_query_never_decreases(inner: SyncObjectInner, calls: Seq<TrackerCall>)
    requires
        inner.pending_point >= inner.timeline_point,
    ensures
        spec_run(inner, calls).pending_point >= spec_run(inner, calls).timeline_point,
        spec_query(spec_run(inner, calls)) >= spec_query(inner),
    decreases calls.len(),
{
    if calls.len() > 0 {
        lemma_query_never_decreases(inner, calls.drop_last());
    }
}

} // verus!
