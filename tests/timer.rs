use std::time::Duration;

use custom_async::join::Join;
use custom_async::timer::{sleep, TimerPoll};

#[test]
fn sleep_starts_once_then_fires_on_signal() {
    let mut timer = sleep(Duration::from_millis(100));
    assert_eq!(timer.duration(), Duration::from_millis(100));
    assert!(!timer.is_fired());
    let sender = match timer.advance() {
        TimerPoll::Start(sender) => sender,
        _ => panic!("first advance must start the timer"),
    };
    assert!(matches!(timer.advance(), TimerPoll::Pending));
    assert!(matches!(timer.advance(), TimerPoll::Pending));
    sender.send(()).unwrap();
    assert!(matches!(timer.advance(), TimerPoll::Ready));
    assert!(timer.is_fired());
    assert!(matches!(timer.advance(), TimerPoll::Ready));
}

#[test]
fn sleep_never_starts_a_second_thread() {
    let mut timer = sleep(Duration::from_millis(0));
    assert!(matches!(timer.advance(), TimerPoll::Start(_)));
    for _ in 0..5 {
        assert!(!matches!(timer.advance(), TimerPoll::Start(_)));
    }
}

#[test]
fn join_of_two_sleeps_completes_after_the_longer() {
    // The shorter timer fires first; the join completes only with the second.
    let mut short = sleep(Duration::from_millis(100));
    let mut long = sleep(Duration::from_millis(300));
    let mut join: Join<(), ()> = Join::new();
    let s1 = match short.advance() {
        TimerPoll::Start(s) => s,
        _ => panic!("short timer did not start"),
    };
    let s2 = match long.advance() {
        TimerPoll::Start(s) => s,
        _ => panic!("long timer did not start"),
    };
    assert!(join.advance(None, None).is_none());

    s1.send(()).unwrap();
    let o1 = if join.wants_first() && matches!(short.advance(), TimerPoll::Ready) { Some(()) } else { None };
    let o2 = if join.wants_second() && matches!(long.advance(), TimerPoll::Ready) { Some(()) } else { None };
    assert_eq!(o1, Some(()));
    assert_eq!(o2, None);
    assert!(join.advance(o1, o2).is_none());
    assert!(!join.wants_first());
    assert!(join.wants_second());

    s2.send(()).unwrap();
    let o2 = if join.wants_second() && matches!(long.advance(), TimerPoll::Ready) { Some(()) } else { None };
    assert_eq!(join.advance(None, o2), Some(((), ())));
}

#[test]
fn waiting_timer_completes_exactly_on_signal() {
    let mut timer = sleep(Duration::from_millis(5));
    assert!(matches!(timer.advance(), TimerPoll::Start(_)));
    assert!(matches!(timer.observe(false), TimerPoll::Pending));
    assert!(!timer.is_fired());
    assert!(matches!(timer.observe(true), TimerPoll::Ready));
    assert!(timer.is_fired());
}
