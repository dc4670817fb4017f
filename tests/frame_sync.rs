use quad_renderer::frame::{
    AcquireResult, AcquireStep, FrameSync, PresentResult, PresentStep, MAX_FRAMES_IN_FLIGHT,
};

#[test]
fn new_sync_starts_at_slot_zero_with_no_images_in_flight() {
    let sync = FrameSync::new(MAX_FRAMES_IN_FLIGHT, 3);
    assert_eq!(sync.current_slot(), 0);
    assert_eq!(sync.frames_in_flight(), 2);
    assert_eq!(sync.image_count(), 3);
    for i in 0..3 {
        assert_eq!(sync.image_in_flight(i), None);
    }
    assert!(!sync.is_resized());
}

#[test]
fn acquire_records_slot_and_reports_previous_fence() {
    let mut sync = FrameSync::new(2, 3);
    assert_eq!(
        sync.on_acquire(AcquireResult::Acquired(1)),
        AcquireStep::Render { image_index: 1, wait_for_slot: None }
    );
    assert_eq!(sync.image_in_flight(1), Some(0));
    assert_eq!(sync.on_present(PresentResult::Presented), PresentStep::Continue);
    assert_eq!(sync.current_slot(), 1);
    // the same image again, now from slot 1: slot 0's fence guards it
    assert_eq!(
        sync.on_acquire(AcquireResult::Acquired(1)),
        AcquireStep::Render { image_index: 1, wait_for_slot: Some(0) }
    );
    assert_eq!(sync.image_in_flight(1), Some(1));
}

#[test]
fn acquire_out_of_date_asks_for_recreation_and_changes_nothing() {
    let mut sync = FrameSync::new(2, 3);
    assert_eq!(sync.on_acquire(AcquireResult::OutOfDate), AcquireStep::Recreate);
    assert_eq!(sync.current_slot(), 0);
    for i in 0..3 {
        assert_eq!(sync.image_in_flight(i), None);
    }
}

#[test]
fn acquire_failure_is_fatal() {
    let mut sync = FrameSync::new(2, 3);
    assert_eq!(sync.on_acquire(AcquireResult::Failed(-4)), AcquireStep::Fatal(-4));
}

#[test]
fn acquire_of_unknown_image_is_rejected() {
    let mut sync = FrameSync::new(2, 3);
    assert_eq!(sync.on_acquire(AcquireResult::Acquired(3)), AcquireStep::InvalidImage);
    assert_eq!(sync.current_slot(), 0);
}

#[test]
fn present_suboptimal_or_out_of_date_recreates_and_advances() {
    let mut sync = FrameSync::new(2, 3);
    sync.on_acquire(AcquireResult::Acquired(0));
    assert_eq!(sync.on_present(PresentResult::Suboptimal), PresentStep::Recreate);
    assert_eq!(sync.current_slot(), 1);
    sync.on_acquire(AcquireResult::Acquired(1));
    assert_eq!(sync.on_present(PresentResult::OutOfDate), PresentStep::Recreate);
    assert_eq!(sync.current_slot(), 0);
}

#[test]
fn resize_flag_forces_recreation_once() {
    let mut sync = FrameSync::new(2, 3);
    sync.mark_resized();
    assert!(sync.is_resized());
    sync.on_acquire(AcquireResult::Acquired(0));
    assert_eq!(sync.on_present(PresentResult::Presented), PresentStep::Recreate);
    assert!(!sync.is_resized());
    sync.on_acquire(AcquireResult::Acquired(1));
    assert_eq!(sync.on_present(PresentResult::Presented), PresentStep::Continue);
}

#[test]
fn present_failure_is_fatal_even_after_resize() {
    let mut sync = FrameSync::new(2, 3);
    sync.mark_resized();
    assert_eq!(sync.on_present(PresentResult::Failed(-3)), PresentStep::Fatal(-3));
    assert!(sync.is_resized());
    assert_eq!(sync.current_slot(), 0);
}

#[test]
fn submission_takes_the_waited_slot_fence_once() {
    let mut sync = FrameSync::new(2, 3);
    assert!(!sync.is_slot_fence_waited());
    assert_eq!(sync.wait_for_slot_fence(), 0);
    assert!(sync.is_slot_fence_waited());
    sync.on_acquire(AcquireResult::Acquired(0));
    assert_eq!(sync.submit(), 0);
    assert!(!sync.is_slot_fence_waited());
    sync.on_present(PresentResult::Presented);
    assert_eq!(sync.wait_for_slot_fence(), 1);
    assert_eq!(sync.submit(), 1);
}

#[test]
fn present_failure_is_fatal_and_keeps_slot() {
    let mut sync = FrameSync::new(2, 3);
    sync.on_acquire(AcquireResult::Acquired(0));
    assert_eq!(sync.on_present(PresentResult::Failed(-3)), PresentStep::Fatal(-3));
    assert_eq!(sync.current_slot(), 0);
}

#[test]
fn recreation_resets_images_in_flight_to_new_count() {
    let mut sync = FrameSync::new(2, 2);
    sync.on_acquire(AcquireResult::Acquired(0));
    sync.on_present(PresentResult::Presented);
    sync.on_acquire(AcquireResult::Acquired(1));
    sync.on_swapchain_recreated(4);
    assert_eq!(sync.image_count(), 4);
    for i in 0..4 {
        assert_eq!(sync.image_in_flight(i), None);
    }
    assert_eq!(sync.current_slot(), 1);
}

/// Runs `n` frames that all present normally and counts the fence waits
/// issued on each slot.
fn waits_per_slot(k: usize, images: u32, n: usize) -> Vec<usize> {
    let mut sync = FrameSync::new(k, images as usize);
    let mut waits = vec![0usize; k];
    for frame in 0..n {
        waits[sync.wait_for_slot_fence()] += 1;
        let image = (frame as u32) % images;
        match sync.on_acquire(AcquireResult::Acquired(image)) {
            AcquireStep::Render { .. } => {}
            other => panic!("unexpected step {:?}", other),
        }
        sync.submit();
        assert_eq!(sync.on_present(PresentResult::Presented), PresentStep::Continue);
    }
    waits
}

#[test]
fn fence_waits_per_slot_follow_floor_formula() {
    for k in 1usize..5 {
        for n in 0usize..12 {
            let waits = waits_per_slot(k, 3, n);
            for f in 0..k {
                let expected = ((n as i64 - f as i64 - 1).div_euclid(k as i64) + 1) as usize;
                assert_eq!(waits[f], expected, "k={} n={} f={}", k, n, f);
            }
        }
    }
    assert_eq!(waits_per_slot(2, 3, 5), vec![3, 2]);
}

#[test]
fn same_slot_submissions_are_k_frames_apart() {
    let k = 3usize;
    let mut sync = FrameSync::new(k, 2);
    let mut last_use: Vec<Option<usize>> = vec![None; k];
    for frame in 0..20 {
        let slot = sync.current_slot();
        if let Some(prev) = last_use[slot] {
            assert!(frame - prev >= k);
        }
        last_use[slot] = Some(frame);
        sync.on_acquire(AcquireResult::Acquired((frame % 2) as u32));
        sync.on_present(PresentResult::Presented);
    }
}

#[test]
fn out_of_date_on_frame_five_recreates_once_and_resumes() {
    let mut sync = FrameSync::new(MAX_FRAMES_IN_FLIGHT, 3);
    let mut recreations = 0;
    let mut submitted: Vec<(usize, usize, usize)> = Vec::new();
    for frame in 0..10usize {
        let result = if frame == 5 {
            AcquireResult::OutOfDate
        } else {
            AcquireResult::Acquired((frame % 3) as u32)
        };
        let slot = sync.wait_for_slot_fence();
        match sync.on_acquire(result) {
            AcquireStep::Render { image_index, .. } => {
                assert_eq!(sync.submit(), slot);
                submitted.push((frame, slot, image_index));
                match sync.on_present(PresentResult::Presented) {
                    PresentStep::Continue => {}
                    other => panic!("unexpected present step {:?}", other),
                }
            }
            AcquireStep::Recreate => {
                recreations += 1;
                sync.on_swapchain_recreated(3);
            }
            other => panic!("unexpected acquire step {:?}", other),
        }
    }
    assert_eq!(recreations, 1);
    let frames: Vec<usize> = submitted.iter().map(|(f, _, _)| *f).collect();
    assert_eq!(frames, vec![0, 1, 2, 3, 4, 6, 7, 8, 9]);
    // frame 6 runs in the slot that frame 5 gave up, into a fresh image table
    assert_eq!(submitted[5], (6, 1, 0));
    assert_eq!(submitted[4], (4, 0, 1));
}
