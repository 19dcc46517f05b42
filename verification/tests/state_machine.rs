use pomo_timer::time_utils::Duration;
use pomo_timer::timer::{Action, Event, InvalidTransition, Phase, TimerState};

fn fresh(work: u64, brk: u64) -> TimerState {
    TimerState::new(Duration { seconds: work }, Duration { seconds: brk })
}

#[test]
fn new_timer_is_idle_with_nothing_scheduled() {
    let t = fresh(25 * 60, 5 * 60);
    assert_eq!(t.phase, Phase::Idle);
    assert_eq!(t.previous_phase, Phase::Idle);
    assert_eq!(t.remaining.seconds, 0);
    assert!(!t.tick_scheduled);
    assert!(!t.completion_scheduled);
}

#[test]
fn start_from_idle_enters_work_with_full_duration() {
    let mut t = fresh(1500, 300);
    let r = t.dispatch(Event::StartOrResume);
    assert_eq!(r, Ok(Action::Schedule(Duration { seconds: 1500 })));
    assert_eq!(t.phase, Phase::Work);
    assert_eq!(t.remaining.seconds, 1500);
    assert!(t.tick_scheduled);
    assert!(t.completion_scheduled);
}

#[test]
fn pause_then_resume_keeps_remaining() {
    let mut t = fresh(10, 4);
    t.dispatch(Event::StartOrResume).unwrap();
    t.dispatch(Event::Tick).unwrap();
    t.dispatch(Event::Tick).unwrap();
    assert_eq!(t.remaining.seconds, 8);

    let r = t.dispatch(Event::Pause);
    assert_eq!(r, Ok(Action::CancelBoth));
    assert_eq!(t.phase, Phase::Paused);
    assert_eq!(t.previous_phase, Phase::Work);
    assert_eq!(t.remaining.seconds, 8);
    assert!(!t.tick_scheduled);
    assert!(!t.completion_scheduled);

    let r = t.dispatch(Event::StartOrResume);
    assert_eq!(r, Ok(Action::Schedule(Duration { seconds: 8 })));
    assert_eq!(t.phase, Phase::Work);
    assert_eq!(t.remaining.seconds, 8);
    assert!(t.tick_scheduled);
    assert!(t.completion_scheduled);
}

#[test]
fn pause_and_resume_a_break() {
    let mut t = fresh(5, 7);
    t.dispatch(Event::StartOrResume).unwrap();
    for _ in 0..5 {
        t.dispatch(Event::Tick).unwrap();
    }
    t.dispatch(Event::PhaseComplete).unwrap();
    t.dispatch(Event::StartOrResume).unwrap();
    assert_eq!(t.phase, Phase::Break);
    t.dispatch(Event::Tick).unwrap();
    t.dispatch(Event::Pause).unwrap();
    assert_eq!(t.previous_phase, Phase::Break);
    assert_eq!(t.remaining.seconds, 6);
    let r = t.dispatch(Event::StartOrResume);
    assert_eq!(r, Ok(Action::Schedule(Duration { seconds: 6 })));
    assert_eq!(t.phase, Phase::Break);
    assert_eq!(t.remaining.seconds, 6);
}

#[test]
fn each_tick_takes_one_second_off() {
    let mut t = fresh(5, 3);
    t.dispatch(Event::StartOrResume).unwrap();
    for expected in (0..5).rev() {
        let r = t.dispatch(Event::Tick);
        assert_eq!(r, Ok(Action::Keep));
        assert_eq!(t.remaining.seconds, expected);
        assert_eq!(t.phase, Phase::Work);
    }
}

#[test]
fn completion_lands_in_idle_and_next_start_alternates() {
    let mut t = fresh(4, 2);
    t.dispatch(Event::StartOrResume).unwrap();
    let r = t.dispatch(Event::PhaseComplete);
    assert_eq!(r, Ok(Action::CancelTick));
    assert_eq!(t.phase, Phase::Idle);
    assert_eq!(t.previous_phase, Phase::Work);
    assert!(!t.tick_scheduled);
    assert!(!t.completion_scheduled);

    let r = t.dispatch(Event::StartOrResume);
    assert_eq!(r, Ok(Action::Schedule(Duration { seconds: 2 })));
    assert_eq!(t.phase, Phase::Break);
    assert_eq!(t.remaining.seconds, 2);

    let r = t.dispatch(Event::PhaseComplete);
    assert_eq!(r, Ok(Action::CancelTick));
    assert_eq!(t.phase, Phase::Idle);
    assert_eq!(t.previous_phase, Phase::Break);

    let r = t.dispatch(Event::StartOrResume);
    assert_eq!(r, Ok(Action::Schedule(Duration { seconds: 4 })));
    assert_eq!(t.phase, Phase::Work);
    assert_eq!(t.remaining.seconds, 4);
}

#[test]
fn tick_while_idle_is_rejected_and_state_unchanged() {
    let mut t = fresh(9, 3);
    let before_phase = t.phase;
    let before_remaining = t.remaining;
    let r = t.dispatch(Event::Tick);
    assert_eq!(r, Err(InvalidTransition));
    assert_eq!(t.phase, before_phase);
    assert_eq!(t.remaining, before_remaining);
    assert!(!t.tick_scheduled);
    assert!(!t.completion_scheduled);
}

#[test]
fn pause_while_idle_is_rejected() {
    let mut t = fresh(9, 3);
    assert_eq!(t.dispatch(Event::Pause), Err(InvalidTransition));
    assert_eq!(t.phase, Phase::Idle);
}

#[test]
fn completion_while_paused_is_rejected() {
    let mut t = fresh(9, 3);
    t.dispatch(Event::StartOrResume).unwrap();
    t.dispatch(Event::Pause).unwrap();
    assert_eq!(t.dispatch(Event::PhaseComplete), Err(InvalidTransition));
    assert_eq!(t.phase, Phase::Paused);
    assert_eq!(t.previous_phase, Phase::Work);
}

#[test]
fn start_while_already_working_is_rejected() {
    let mut t = fresh(9, 3);
    t.dispatch(Event::StartOrResume).unwrap();
    assert_eq!(t.dispatch(Event::StartOrResume), Err(InvalidTransition));
    assert_eq!(t.phase, Phase::Work);
    assert_eq!(t.remaining.seconds, 9);
}

#[test]
fn resume_without_an_interrupted_phase_is_rejected() {
    // A paused timer whose previous phase does not name an interrupted
    // work or break period: no table row covers it.
    let mut t = TimerState {
        work_duration: Duration { seconds: 9 },
        break_duration: Duration { seconds: 3 },
        phase: Phase::Paused,
        previous_phase: Phase::Idle,
        remaining: Duration { seconds: 5 },
        tick_scheduled: false,
        completion_scheduled: false,
    };
    assert_eq!(t.dispatch(Event::StartOrResume), Err(InvalidTransition));
    assert_eq!(t.phase, Phase::Paused);
    assert_eq!(t.remaining.seconds, 5);
}

#[test]
fn end_to_end_work_five_break_three() {
    let mut t = fresh(5, 3);

    let r = t.dispatch(Event::StartOrResume);
    assert_eq!(r, Ok(Action::Schedule(Duration { seconds: 5 })));
    assert_eq!(t.phase, Phase::Work);
    assert_eq!(t.remaining.seconds, 5);

    for _ in 0..5 {
        t.dispatch(Event::Tick).unwrap();
    }
    assert_eq!(t.remaining.seconds, 0);
    assert_eq!(t.remaining_display(), "00:00");

    t.dispatch(Event::PhaseComplete).unwrap();
    assert_eq!(t.phase, Phase::Idle);
    assert_eq!(t.previous_phase, Phase::Work);

    let r = t.dispatch(Event::StartOrResume);
    assert_eq!(r, Ok(Action::Schedule(Duration { seconds: 3 })));
    assert_eq!(t.phase, Phase::Break);
    assert_eq!(t.remaining.seconds, 3);
}

#[test]
fn button_offers_start_when_idle_or_paused_and_pause_when_running() {
    let mut t = fresh(6, 2);
    assert_eq!(t.button_label(), "Start timer");
    assert_eq!(t.button_event(), Event::StartOrResume);

    t.dispatch(Event::StartOrResume).unwrap();
    assert_eq!(t.button_label(), "Pause timer");
    assert_eq!(t.button_event(), Event::Pause);

    t.dispatch(Event::Pause).unwrap();
    assert_eq!(t.button_label(), "Start timer");
    assert_eq!(t.button_event(), Event::StartOrResume);

    t.dispatch(Event::StartOrResume).unwrap();
    t.dispatch(Event::PhaseComplete).unwrap();
    assert_eq!(t.button_label(), "Start timer");
    assert_eq!(t.button_event(), Event::StartOrResume);
}

#[test]
fn display_follows_the_countdown() {
    let mut t = fresh(62, 3);
    assert_eq!(t.remaining_display(), "00:00");
    t.dispatch(Event::StartOrResume).unwrap();
    assert_eq!(t.remaining_display(), "01:02");
    assert_eq!(t.current_phase(), Phase::Work);
    t.dispatch(Event::Tick).unwrap();
    assert_eq!(t.remaining_display(), "01:01");
    t.dispatch(Event::Tick).unwrap();
    assert_eq!(t.remaining_display(), "01:00");
    t.dispatch(Event::Tick).unwrap();
    assert_eq!(t.remaining_display(), "00:59");
}
