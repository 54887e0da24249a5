use gpui3d::cache::KeyedCache;
use gpui3d::frames::{BackBuffer, FRAMES_IN_FLIGHT, FrameRing, FrameStep, must_wait, plan_frame};
use gpui3d::pacing::{FrameMeter, RenderClock, count_turn};
use gpui3d::renderer::{Action, Api, Event, Frame, FrameStart};
use gpui3d::target::{DepthTarget, TargetSlot};
use gpui3d::turns::{RenderThread, TurnAction, TurnEvent};

const MS: u128 = 1_000_000;

/// Answers every action in the obvious way, and gives all the actions.
fn drive(start: FrameStart, back: BackBuffer, framebuffer: bool, encoded: bool) -> Vec<Action> {
    let (mut frame, mut action) = Frame::begin(start);
    let mut actions = vec![action];
    loop {
        let event = match action {
            Action::WaitFence(_) => Event::FenceReached,
            Action::Acquire => Event::Acquired { back, framebuffer },
            Action::ReplaceTarget(_, _) => Event::TargetReplaced,
            Action::MakeFramebuffer => Event::FramebufferMade,
            Action::Encode => Event::Encoded(encoded),
            Action::LockQueue => Event::QueueLocked,
            Action::Submit => Event::Submitted,
            Action::UnlockQueue => Event::QueueUnlocked,
            Action::Finish => Event::Finished,
            Action::Publish => Event::Published,
            Action::Return(_) => return actions,
        };
        action = frame.advance(event);
        actions.push(action);
    }
}

fn start(api: Api, target: Option<(u32, u32)>) -> FrameStart {
    FrameStart { api, pending: 5, submitted: 6, target }
}

#[test]
fn frames_of_each_api_on_a_new_size() {
    let back = BackBuffer::Ready(64, 32);
    let replace = Action::ReplaceTarget(64, 32);
    assert_eq!(
        drive(start(Api::Vulkan, Some((1, 1))), back, true, true),
        [
            Action::WaitFence(5),
            Action::Acquire,
            Action::WaitFence(6),
            replace,
            Action::MakeFramebuffer,
            Action::Encode,
            Action::LockQueue,
            Action::Submit,
            Action::UnlockQueue,
            Action::Publish,
            Action::Return(true),
        ]
    );
    assert_eq!(
        drive(start(Api::Dx12, None), back, false, true),
        [
            Action::WaitFence(5),
            Action::Acquire,
            Action::WaitFence(6),
            replace,
            Action::Encode,
            Action::Submit,
            Action::Publish,
            Action::Return(true),
        ]
    );
    assert_eq!(
        drive(start(Api::OpenGl, None), back, false, true),
        [
            Action::Acquire,
            replace,
            Action::MakeFramebuffer,
            Action::Encode,
            Action::Finish,
            Action::Publish,
            Action::Return(true),
        ]
    );
    let plain =
        [Action::Acquire, replace, Action::Encode, Action::Submit, Action::Publish, Action::Return(true)];
    assert_eq!(drive(start(Api::Metal, None), back, false, true), plain);
    assert_eq!(drive(start(Api::Wgpu, None), back, false, true), plain);
}

#[test]
fn frames_on_the_present_size_replace_nothing() {
    let back = BackBuffer::Ready(64, 32);
    let same = Some((64, 32));
    assert_eq!(
        drive(start(Api::Wgpu, same), back, false, true),
        [Action::Acquire, Action::Encode, Action::Submit, Action::Publish, Action::Return(true)]
    );
    assert_eq!(
        drive(start(Api::OpenGl, same), back, true, true),
        [Action::Acquire, Action::Encode, Action::Finish, Action::Publish, Action::Return(true)]
    );
    assert_eq!(drive(start(Api::OpenGl, same), back, false, true)[1], Action::MakeFramebuffer);
    assert_eq!(drive(start(Api::Vulkan, same), back, true, true)[2], Action::Encode);
}

#[test]
fn frames_without_a_buffer_or_encoder_are_dropped() {
    for api in [Api::Wgpu, Api::Metal, Api::OpenGl] {
        for back in [BackBuffer::Missing, BackBuffer::Foreign] {
            assert_eq!(drive(start(api, None), back, false, true), [Action::Acquire, Action::Return(false)]);
        }
    }
    let actions = drive(start(Api::Metal, Some((2, 2))), BackBuffer::Ready(2, 2), false, false);
    assert_eq!(actions, [Action::Acquire, Action::Encode, Action::Return(false)]);
    assert!(!actions.contains(&Action::Publish));
}

#[test]
fn only_vulkan_submits_under_the_lock() {
    assert!(Api::Vulkan.submits_under_lock());
    for api in [Api::Wgpu, Api::Metal, Api::Dx12, Api::OpenGl] {
        assert!(!api.submits_under_lock());
        let actions = drive(start(api, None), BackBuffer::Ready(2, 2), false, true);
        assert!(!actions.contains(&Action::LockQueue) && !actions.contains(&Action::UnlockQueue));
        assert_eq!(actions.iter().filter(|action| **action == Action::Publish).count(), 1);
    }
}

#[test]
fn plan_follows_the_size() {
    assert_eq!(plan_frame(Some((3, 4)), BackBuffer::Missing), FrameStep::Skip);
    assert_eq!(
        plan_frame(Some((3, 4)), BackBuffer::Ready(3, 4)),
        FrameStep::Draw { width: 3, height: 4, resize: false }
    );
    assert_eq!(
        plan_frame(Some((3, 4)), BackBuffer::Ready(4, 3)),
        FrameStep::Draw { width: 4, height: 3, resize: true }
    );
    assert_eq!(plan_frame(None, BackBuffer::Ready(0, 0)), FrameStep::Draw { width: 0, height: 0, resize: true });
}

#[test]
fn ring_waits_for_the_frame_before_last() {
    let mut ring: FrameRing<&str> = FrameRing::new(FRAMES_IN_FLIGHT);
    let mut pendings = Vec::new();
    for name in ["a", "b", "c", "d"] {
        pendings.push((ring.current(), ring.pending()));
        ring.recycle(ring.pending());
        ring.submit(name);
    }
    assert_eq!(pendings, [(0, 0), (1, 0), (0, 1), (1, 2)]);
    assert_eq!(ring.submitted(), 4);
    assert_eq!((ring.slots_until(2), ring.slots_until(3), ring.slots_until(4)), (vec![], vec![0], vec![0, 1]));
    let start = ring.frame_start(Api::Vulkan, Some((2, 3)));
    assert_eq!((start.pending, start.submitted, start.target), (3, 4, Some((2, 3))));
    assert!(must_wait(2, 3) && !must_wait(3, 3));
}

#[test]
fn targets_are_replaced_with_the_size() {
    let mut depth: DepthTarget<u32> = DepthTarget::new();
    assert_eq!((depth.size(), depth.depth()), (None, None));
    depth.replace(7, 10, 20);
    depth.replace(8, 11, 20);
    assert_eq!((depth.size(), depth.depth()), (Some((11, 20)), Some(&8)));

    let mut slot: TargetSlot<u32, &str> = TargetSlot::new();
    assert!(slot.take().is_none() && slot.framebuffer(1).is_none());
    slot.install(9, 10, 20);
    assert_eq!(slot.framebuffer(1), None);
    slot.add_framebuffer(1, "one");
    slot.add_framebuffer(2, "two");
    assert_eq!((slot.framebuffer(1), slot.framebuffer(2)), (Some(&"one"), Some(&"two")));
    assert_eq!((slot.size(), slot.depth()), (Some((10, 20)), Some(&9)));
    let old = slot.take().unwrap();
    let mut framebuffers = old.framebuffers.into_values();
    framebuffers.sort();
    assert_eq!((old.depth, framebuffers), (9, vec!["one", "two"]));
    assert_eq!(slot.size(), None);
}

#[test]
fn rows_near_the_window_are_kept() {
    let mut rows: KeyedCache<u64> = KeyedCache::new();
    for key in rows.missing(100, 110) {
        rows.insert(key, key * 10);
    }
    assert_eq!(rows.missing(98, 112), [98, 99, 110, 111]);
    rows.retain_window(163, 170);
    assert_eq!((rows.get(98), rows.get(100), rows.get(109)), (None, Some(&1000), Some(&1090)));
    rows.retain_window(165, 170);
    assert_eq!((rows.get(100), rows.get(101)), (None, Some(&1010)));
    rows.retain_window(0, 38);
    assert_eq!((rows.get(101), rows.get(102)), (Some(&1010), None));
    rows.retain_listed(&vec![5, 6]);
    assert_eq!(rows.get(101), None);
}

#[test]
fn listed_rows_are_kept() {
    let mut rows: KeyedCache<&str> = KeyedCache::new();
    rows.insert(1, "a");
    rows.insert(2, "b");
    rows.insert(3, "c");
    rows.retain_listed(&vec![3, 9, 1]);
    assert_eq!((rows.get(1), rows.get(2), rows.get(3)), (Some(&"a"), None, Some(&"c")));
}

#[test]
fn deadlines_are_absolute() {
    let mut clock = RenderClock::new(1_000 * MS, 16 * MS);
    for n in 1..=5u128 {
        clock.frame_ended(1_000 * MS + (n - 1) * 16 * MS + 9 * MS);
        assert_eq!(clock.deadline, 1_000 * MS + n * 16 * MS);
        assert_eq!(clock.sleep(clock.deadline - 2 * MS), 2 * MS);
    }
    clock.frame_ended(2_000 * MS);
    assert_eq!(clock.deadline, 2_000 * MS);
    assert_eq!(clock.sleep(2_001 * MS), 0);
}

#[test]
fn turns_of_the_render_thread() {
    let (mut thread, mut action) = RenderThread::start(16 * MS);
    let mut actions = vec![action];
    let published = [true, false, true];
    let (mut turn, mut now) = (0, 5 * MS);
    while actions.len() < 16 {
        let event = match action {
            TurnAction::Create => TurnEvent::Created(5 * MS),
            TurnAction::Guard => TurnEvent::Guarded,
            TurnAction::Render => {
                turn += 1;
                TurnEvent::Rendered(published[turn - 1])
            }
            TurnAction::Release => TurnEvent::Released,
            TurnAction::Redraw => {
                now += if turn == 2 { 40 * MS } else { 9 * MS };
                TurnEvent::Redrawn(now)
            }
            TurnAction::SleepUntil(_) => TurnEvent::Woken,
        };
        action = thread.advance(event);
        actions.push(action);
    }
    let frame = [TurnAction::Guard, TurnAction::Render, TurnAction::Release, TurnAction::Redraw];
    let mut want = vec![TurnAction::Create];
    for due in [21 * MS, 54 * MS, 70 * MS] {
        want.extend(frame);
        want.push(TurnAction::SleepUntil(due));
    }
    assert_eq!(actions, want);
    assert_eq!(thread.frames, 2);
    assert_eq!(count_turn(u64::MAX, true), 0);
    assert_eq!((count_turn(7, true), count_turn(7, false)), (8, 7));
}

#[test]
fn meter_counts_between_readings() {
    let mut meter = FrameMeter::new();
    assert_eq!((meter.read(30), meter.read(30), meter.read(61)), (30, 0, 31));
}
