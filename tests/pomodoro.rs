use disk_stack::pomodoro::{PomodoroTimer, TimerState};

#[test]
fn test_timer_creation() {
    let timer = PomodoroTimer::new();
    assert_eq!(timer.cycle_count, 0);
    assert!(matches!(timer.state, TimerState::Working));
}

#[test]
fn every_fourth_session_ends_in_long_break() {
    let mut timer = PomodoroTimer::new();
    let mut breaks = Vec::new();
    for _ in 0..8 {
        assert_eq!(timer.begin_work_session(), 1);
        timer.end_work_session();
        breaks.push(timer.state);
        timer.break_minutes().unwrap();
        timer.end_break();
        assert_eq!(timer.state, TimerState::Working);
    }
    assert_eq!(timer.cycle_count, 8);
    assert_eq!(breaks[2], TimerState::ShortBreak);
    assert_eq!(breaks[3], TimerState::LongBreak);
    assert_eq!(breaks[7], TimerState::LongBreak);
    assert_eq!(breaks.iter().filter(|s| **s == TimerState::LongBreak).count(), 2);
}

#[test]
fn break_lengths() {
    let mut timer = PomodoroTimer::new();
    assert_eq!(timer.break_minutes(), None);
    timer.state = TimerState::ShortBreak;
    assert_eq!(timer.break_minutes(), Some(1));
    timer.state = TimerState::LongBreak;
    assert_eq!(timer.break_minutes(), Some(2));
}
