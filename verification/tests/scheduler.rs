use blue_horizon::error::AppError;
use blue_horizon::scheduler::{
    unread_count_event, Scheduler, Wakeup, POLL_PERIOD_MILLIS, SWEEP_PERIOD_MILLIS,
};

#[test]
fn the_periods_are_twenty_seconds_and_three_minutes() {
    assert_eq!(SWEEP_PERIOD_MILLIS, 20_000);
    assert_eq!(POLL_PERIOD_MILLIS, 180_000);
}

#[test]
fn both_are_due_at_the_start() {
    let mut timetable = Scheduler::start(1_000);
    assert_eq!(timetable.next_wakeup(), 1_000);
    assert_eq!(timetable.wake(1_000), Wakeup { sweep: true, poll: true });
    assert_eq!(timetable, Scheduler { next_sweep_at: 21_000, next_poll_at: 181_000 });
    assert_eq!(timetable.next_wakeup(), 21_000);
}

#[test]
fn nothing_is_due_before_its_time() {
    let mut timetable = Scheduler::start(0);
    timetable.wake(0);
    assert_eq!(timetable.wake(19_999), Wakeup { sweep: false, poll: false });
    assert_eq!(timetable, Scheduler { next_sweep_at: 20_000, next_poll_at: 180_000 });
    assert_eq!(timetable.wake(20_000), Wakeup { sweep: true, poll: false });
    assert_eq!(timetable.next_sweep_at, 40_000);
    assert_eq!(timetable.next_poll_at, 180_000);
}

#[test]
fn a_late_wake_up_starts_the_period_anew() {
    let mut timetable = Scheduler::start(0);
    timetable.wake(0);
    assert_eq!(timetable.wake(200_000), Wakeup { sweep: true, poll: true });
    assert_eq!(timetable, Scheduler { next_sweep_at: 220_000, next_poll_at: 380_000 });
    assert_eq!(timetable.wake(200_000), Wakeup { sweep: false, poll: false });
}

#[test]
fn a_new_session_sweeps_out_of_turn() {
    let mut timetable = Scheduler::start(0);
    timetable.wake(0);
    assert_eq!(timetable.session_established(), Wakeup { sweep: true, poll: false });
    assert_eq!(timetable, Scheduler { next_sweep_at: 20_000, next_poll_at: 180_000 });
}

#[test]
fn the_unread_count_is_published_whenever_it_was_read() {
    assert_eq!(unread_count_event(Some(Ok(0))), Some(0));
    assert_eq!(unread_count_event(Some(Ok(7))), Some(7));
    assert_eq!(unread_count_event(Some(Ok(7))), Some(7));
    assert_eq!(unread_count_event(Some(Ok(4_294_967_296 + 5))), Some(5));
    assert_eq!(unread_count_event(Some(Ok(-1))), Some(u32::MAX));
    assert_eq!(unread_count_event(None), None);
    assert_eq!(unread_count_event(Some(Err(AppError::NetworkError("down".to_string())))), None);
}
