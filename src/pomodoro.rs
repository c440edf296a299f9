use vstd::prelude::*;

verus! {

/// Work sessions in one round; the last one of a round ends in a long break.
pub const SESSIONS_PER_ROUND: u32 = 4;

/// Minutes of a work session.
pub const WORK_MINUTES: u64 = 1;

/// Minutes of a short break.
pub const SHORT_BREAK_MINUTES: u64 = 1;

/// Minutes of a long break.
pub const LONG_BREAK_MINUTES: u64 = 2;

/// The phase a timer is in.
#[derive(Debug, Clone, Copy, PartialEq, Eq, Structural)]
pub enum TimerState {
    /// A work session.
    Working,
    /// A short break after a work session.
    ShortBreak,
    /// A long break after the last work session of a round.
    LongBreak,
}

/// A work/break timer: the phase it is in and the work sessions started.
#[derive(Debug, Clone, Copy, PartialEq, Eq, Structural)]
pub struct PomodoroTimer {
    /// Work sessions started so far.
    pub cycle_count: u32,
    /// The current phase.
    pub state: TimerState,
}

/// The break that follows work session number `cycle`.
pub open spec fn break_after(cycle: int) -> TimerState {
    if cycle % SESSIONS_PER_ROUND as int == 0 {
        TimerState::LongBreak
    } else {
        TimerState::ShortBreak
    }
}

impl PomodoroTimer {
    /// A timer about to start its first work session.
    pub fn new() -> (r: PomodoroTimer)
        ensures
            r.cycle_count == 0,
            r.state == TimerState::Working,
    {
        PomodoroTimer { cycle_count: 0, state: TimerState::Working }
    }

    /// Counts a work session as started and returns its length in minutes.
    pub fn begin_work_session(&mut self) -> (minutes: u64)
        requires
            old(self).cycle_count < u32::MAX,
        ensures
            final(self).cycle_count == old(self).cycle_count + 1,
            final(self).state == old(self).state,
            minutes == WORK_MINUTES,
    {
        self.cycle_count = self.cycle_count + 1;
        WORK_MINUTES
    }

    /// Ends the current work session: every `SESSIONS_PER_ROUND`-th session
    /// is followed by a long break, the others by a short one.
    pub fn end_work_session(&mut self)
        ensures
            final(self).cycle_count == old(self).cycle_count,
            final(self).state == break_after(old(self).cycle_count as int),
    {
        if self.cycle_count % SESSIONS_PER_ROUND == 0 {
            self.state = TimerState::LongBreak;
        } else {
            self.state = TimerState::ShortBreak;
        }
    }

    /// Length in minutes of the break the timer is in, or `None` while working.
    pub fn break_minutes(&self) -> (r: Option<u64>)
        ensures
            self.state == TimerState::Working ==> r is None,
            self.state == TimerState::ShortBreak ==> r == Some(SHORT_BREAK_MINUTES),
            self.state == TimerState::LongBreak ==> r == Some(LONG_BREAK_MINUTES),
    {
        match self.state {
            TimerState::Working => None,
            TimerState::ShortBreak => Some(SHORT_BREAK_MINUTES),
            TimerState::LongBreak => Some(LONG_BREAK_MINUTES),
        }
    }

    /// Ends a break; the next phase is work.
    pub fn end_break(&mut self)
        ensures
            final(self).cycle_count == old(self).cycle_count,
            final(self).state == TimerState::Working,
    {
        self.state = TimerState::Working;
    }
}

} // verus!
