use kernel_hal::thread::{ParkState, ParkStep, Parker, WakeStep};
use kernel_hal::timer::{TickTimer, TimerEntry, TimerQueue};

#[test]
fn timer_fires_once_not_early() {
    let mut q = TimerQueue::new();
    let now = 1_000u64;
    let d = 250u64;
    q.set(now + d, 1);
    assert!(q.expire(now).is_empty());
    assert!(q.expire(now + d - 1).is_empty());
    let fired = q.expire(now + d);
    assert_eq!(fired, vec![TimerEntry { deadline: now + d, callback: 1 }]);
    assert!(q.expire(now + 10 * d).is_empty());
    assert_eq!(q.len(), 0);
}

#[test]
fn many_timers_fire_in_order() {
    let mut q = TimerQueue::new();
    q.set(30, 1);
    q.set(10, 2);
    q.set(20, 3);
    q.set(40, 4);
    let fired: Vec<usize> = q.expire(25).iter().map(|e| e.callback).collect();
    assert_eq!(fired, vec![2, 3]);
    assert_eq!(q.len(), 2);
    let rest: Vec<usize> = q.expire(100).iter().map(|e| e.callback).collect();
    assert_eq!(rest, vec![1, 4]);
}

#[test]
fn tick_timer_rearms() {
    let mut t = TickTimer::new(100);
    assert_eq!(t.deadline, 100);
    assert_eq!(t.super_timer(130), 230);
    assert_eq!(t.deadline, 230);
}

#[test]
fn park_blocks_until_wake() {
    let mut p = Parker::new();
    assert_eq!(p.park(), ParkStep::Block);
    assert_eq!(p.state(), ParkState::Parked);
    assert_eq!(p.wake(), WakeStep::Resume);
    assert_eq!(p.state(), ParkState::Empty);
}

#[test]
fn wake_before_park_is_not_lost() {
    let mut p = Parker::new();
    assert_eq!(p.wake(), WakeStep::Pending);
    assert_eq!(p.wake(), WakeStep::Pending);
    assert_eq!(p.park(), ParkStep::Proceed);
    assert_eq!(p.park(), ParkStep::Block);
}
