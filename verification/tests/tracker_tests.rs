use magma::error::Error;
use magma::tracker::SyncObjectState;
use magma::tracker::SyncObjectTracker;
use magma::tracker::VirtioSyncOp;

#[test]
fn new_tracker_state() {
    let t = SyncObjectTracker::new(0);
    assert_eq!(t.last_used_ring_and_seqno(), (0, 0, SyncObjectState::Unsubmitted));
    assert_eq!(t.timeline_query(), Ok(0));
    let t = SyncObjectTracker::new(5);
    assert_eq!(t.last_used_ring_and_seqno(), (0, 0, SyncObjectState::CpuSignaled));
    assert_eq!(t.timeline_query(), Ok(5));
    assert!(!t.has_imported_fence());
}

#[test]
fn signal_submission_is_recorded() {
    let mut t = SyncObjectTracker::new(0);
    t.record_submission(VirtioSyncOp::Signal { ring_idx: 3, seqno: 9, point: 4 });
    assert_eq!(
        t.last_used_ring_and_seqno(),
        (3, 9, SyncObjectState::Submitted { ring_idx: 3, fence_created: false })
    );
    assert_eq!(t.last_ring_idx(), 3);
    assert_eq!(t.timeline_query(), Ok(4));
    t.record_submission(VirtioSyncOp::Wait { ring_idx: 5, seqno: 10 });
    assert_eq!(t.last_used_ring_and_seqno().0, 5);
    assert_eq!(t.last_ring_idx(), 3);
}

#[test]
fn points_never_go_back() {
    let mut t = SyncObjectTracker::new(0);
    t.record_submission(VirtioSyncOp::Signal { ring_idx: 1, seqno: 1, point: 10 });
    t.record_submission(VirtioSyncOp::Signal { ring_idx: 1, seqno: 2, point: 3 });
    assert_eq!(t.timeline_query(), Ok(10));
    t.mark_cpu_signaled(Some(2)).unwrap();
    assert_eq!(t.timeline_query(), Ok(10));
    t.mark_imported().unwrap();
    assert_eq!(t.timeline_query(), Ok(10));
    assert!(t.has_imported_fence());
}

#[test]
fn unsubmitted_wait_times_out_or_keeps_waiting() {
    let mut t = SyncObjectTracker::new(0);
    assert_eq!(t.wait_for_submission(0, false, |_| panic!("no fence")), Err(Error::TimedOut));
    assert_eq!(t.wait_for_submission(100, true, |_| panic!("no fence")), Err(Error::TimedOut));
    assert_eq!(t.wait_for_submission(100, false, |_| panic!("no fence")), Ok(SyncObjectState::Unsubmitted));
}

#[test]
fn fence_is_created_once() {
    let mut t = SyncObjectTracker::new(0);
    t.record_submission(VirtioSyncOp::Signal { ring_idx: 7, seqno: 1, point: 0 });
    let mut created = Vec::new();
    let r = t.wait_for_submission(1, false, |ring| {
        created.push(ring);
        Ok(())
    });
    assert_eq!(r, Ok(SyncObjectState::Submitted { ring_idx: 7, fence_created: true }));
    assert_eq!(created, vec![7]);
    let r = t.wait_for_submission(1, false, |_| panic!("fence already created"));
    assert_eq!(r, Ok(SyncObjectState::Submitted { ring_idx: 7, fence_created: true }));
}

#[test]
fn failed_fence_creation_leaves_state() {
    let mut t = SyncObjectTracker::new(0);
    t.record_submission(VirtioSyncOp::Signal { ring_idx: 2, seqno: 1, point: 0 });
    assert_eq!(t.wait_for_submission(1, false, |_| Err(Error::Unimplemented)), Err(Error::Unimplemented));
    assert_eq!(t.last_used_ring_and_seqno().2, SyncObjectState::Submitted { ring_idx: 2, fence_created: false });
}

#[test]
fn cpu_signaled_wait_returns_state() {
    let mut t = SyncObjectTracker::new(0);
    t.mark_cpu_signaled(None).unwrap();
    assert_eq!(t.wait_for_submission(0, true, |_| panic!("no fence")), Ok(SyncObjectState::CpuSignaled));
}

#[test]
fn timeline_wait_steps() {
    let mut t = SyncObjectTracker::new(0);
    assert_eq!(t.wait_for_timeline_point(0, 0, false), Ok(Some(true)));
    assert_eq!(t.wait_for_timeline_point(5, 0, false), Err(Error::TimedOut));
    assert_eq!(t.wait_for_timeline_point(5, 10, false), Ok(None));
    t.record_submission(VirtioSyncOp::Signal { ring_idx: 1, seqno: 1, point: 5 });
    assert_eq!(t.wait_for_timeline_point(5, 10, false), Ok(Some(false)));
    t.complete_gpu_wait();
    assert_eq!(t.wait_for_timeline_point(5, 10, false), Ok(Some(true)));
    assert_eq!(t.wait_for_timeline_point(6, 10, true), Err(Error::TimedOut));
}

#[test]
fn cpu_signal_reaches_its_point() {
    let mut t = SyncObjectTracker::new(0);
    t.mark_cpu_signaled(Some(8)).unwrap();
    assert_eq!(t.wait_for_timeline_point(8, 0, false), Ok(Some(true)));
    assert_eq!(t.timeline_query(), Ok(8));
}

#[test]
fn tracker_reports_last_recorded_submission_over_a_sequence() {
    let mut t = SyncObjectTracker::new(0);
    t.record_submission(VirtioSyncOp::Signal { ring_idx: 2, seqno: 5, point: 3 });
    t.complete_gpu_wait();
    t.record_submission(VirtioSyncOp::Wait { ring_idx: 1, seqno: 9 });
    let _ = t.mark_imported();
    let (ring, seqno, _) = t.last_used_ring_and_seqno();
    assert_eq!((ring, seqno), (1, 9));
    assert!(t.has_imported_fence());
    // A later signal from the CPU replaces the imported fence.
    let _ = t.mark_cpu_signaled(Some(4));
    assert!(!t.has_imported_fence());
    assert_eq!(t.timeline_query(), Ok(4));
}
