use rey_engine::device::{select_device_and_queue, select_queue_family, QueueFamily};
use rey_engine::frame::{AcquireOutcome, ActiveFrame, SyncContext, ERROR_OUT_OF_DATE, MAX_FRAMES_IN_FLIGHT};

fn sync(image_count: u64) -> SyncContext {
    SyncContext::new(vec![10, 11], (0..image_count).map(|i| 20 + i).collect(), vec![30, 31], 40, vec![50, 51])
}

#[test]
fn out_of_date_constant_matches_vulkan() {
    assert_eq!(ash::vk::Result::ERROR_OUT_OF_DATE_KHR.as_raw(), ERROR_OUT_OF_DATE);
    assert_eq!(MAX_FRAMES_IN_FLIGHT, 2);
}

#[test]
fn first_frame_uses_slot_zero() {
    let s = sync(3);
    assert_eq!(s.current_frame, 0);
    let b = s.begin_frame();
    assert_eq!(b.frame_index, 0);
    assert_eq!(b.in_flight_fence, 30);
    assert_eq!(b.image_available_semaphore, 10);
    assert_eq!(b.command_buffer, 50);
}

#[test]
fn acquire_outcomes() {
    let s = sync(3);
    assert_eq!(s.on_acquire(Ok(2)), AcquireOutcome::Ready(ActiveFrame { image_index: 2, frame_index: 0 }));
    assert_eq!(s.on_acquire(Err(ERROR_OUT_OF_DATE)), AcquireOutcome::OutOfDate);
    assert_eq!(s.on_acquire(Err(-4)), AcquireOutcome::Failed(-4));
}

#[test]
fn end_frame_submits_with_the_frame_objects_and_rotates() {
    let mut s = sync(3);
    let frame = ActiveFrame { image_index: 2, frame_index: 0 };
    let submit = s.frame_submit(&frame);
    s.end_frame(&frame);
    assert_eq!(submit.command_buffer, 50);
    assert_eq!(submit.wait_semaphore, 10);
    assert_eq!(submit.signal_semaphore, 22);
    assert_eq!(submit.in_flight_fence, 30);
    assert_eq!(submit.image_index, 2);
    assert_eq!(s.current_frame, 1);
    let b = s.begin_frame();
    assert_eq!(b.in_flight_fence, 31);
    let f2 = ActiveFrame { image_index: 0, frame_index: 1 };
    let submit = s.frame_submit(&f2);
    s.end_frame(&f2);
    assert_eq!(submit.wait_semaphore, 11);
    assert_eq!(submit.signal_semaphore, 20);
    assert_eq!(s.current_frame, 0);
}

#[test]
fn frame_slots_alternate_over_many_frames() {
    let mut s = sync(2);
    for k in 0..10usize {
        assert_eq!(s.current_frame, k % MAX_FRAMES_IN_FLIGHT);
        let f = match s.on_acquire(Ok((k % 2) as u32)) {
            AcquireOutcome::Ready(f) => f,
            other => panic!("unexpected {:?}", other),
        };
        s.end_frame(&f);
    }
    assert_eq!(s.current_frame, 0);
}

const G: u32 = 1;
const COMPUTE: u32 = 2;

#[test]
fn queue_family_must_render_and_present() {
    let fams = vec![
        QueueFamily { queue_flags: COMPUTE, surface_support: true },
        QueueFamily { queue_flags: G | COMPUTE, surface_support: false },
        QueueFamily { queue_flags: G, surface_support: true },
        QueueFamily { queue_flags: G | COMPUTE, surface_support: true },
    ];
    assert_eq!(select_queue_family(&fams), Some(2));
    assert_eq!(select_queue_family(&fams[..2].to_vec()), None);
    assert_eq!(select_queue_family(&vec![]), None);
}

#[test]
fn first_device_with_suitable_family_wins() {
    let bad = vec![QueueFamily { queue_flags: G, surface_support: false }];
    let good = vec![
        QueueFamily { queue_flags: COMPUTE, surface_support: true },
        QueueFamily { queue_flags: G, surface_support: true },
    ];
    let also_good = vec![QueueFamily { queue_flags: G, surface_support: true }];
    assert_eq!(select_device_and_queue(&vec![bad.clone(), good, also_good]), Ok((1, 1)));
    assert_eq!(
        select_device_and_queue(&vec![bad.clone(), vec![]]),
        Err("適合するGPUとキューファミリーが見つかりませんでした".to_string())
    );
    assert!(select_device_and_queue(&vec![]).is_err());
}
