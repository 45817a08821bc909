use reaction_time::machine::Action;
use reaction_time::machine::Machine;
use reaction_time::scheduler::DelayRange;
use reaction_time::state::Event;
use reaction_time::state::RoundState;

fn fresh() -> Machine {
    Machine::new(DelayRange::standard())
}

fn armed() -> Machine {
    let mut machine = fresh();
    machine.handle_with_sample(Event::Activation, 100, 0);
    machine
}

fn signaled(start_ms: u128) -> Machine {
    let mut machine = armed();
    machine.handle_with_sample(Event::TimerFired, start_ms, 0);
    machine
}

fn with_result(ms: u16) -> Machine {
    let mut machine = signaled(1000);
    machine.handle_with_sample(Event::Activation, 1000 + u128::from(ms), 0);
    machine
}

fn false_started() -> Machine {
    let mut machine = armed();
    machine.handle_with_sample(Event::Activation, 200, 0);
    machine
}

fn every_state() -> Vec<Machine> {
    vec![fresh(), armed(), signaled(1000), with_result(321), false_started()]
}

#[test]
fn a_new_machine_is_idle_without_a_timer() {
    let machine = fresh();
    assert_eq!(machine.state(), RoundState::Idle);
    assert_eq!(machine.pending_since(), None);
    assert_eq!(machine.delay_range().min_ms(), 2000);
    assert_eq!(machine.delay_range().max_ms(), 7000);
}

#[test]
fn activation_from_idle_arms_and_schedules_a_timer() {
    let mut machine = fresh();
    let action = machine.handle_with_sample(Event::Activation, 40, 1234);
    assert_eq!(machine.state(), RoundState::Armed);
    assert_eq!(machine.pending_since(), Some(40));
    match action {
        Action::StartTimer(task) => assert_eq!(task.delay_ms, 3234),
        other => panic!("expected a timer to start, got {:?}", other),
    }
}

#[test]
fn activation_with_a_random_delay_arms_within_the_range() {
    let mut machine = fresh();
    let action = machine.handle(Event::Activation, 40);
    assert_eq!(machine.state(), RoundState::Armed);
    assert_eq!(machine.pending_since(), Some(40));
    match action {
        Action::StartTimer(task) => assert!(2000 <= task.delay_ms && task.delay_ms < 7000),
        other => panic!("expected a timer to start, got {:?}", other),
    }
}

#[test]
fn second_activation_while_armed_is_a_false_start() {
    let mut machine = fresh();
    let first = machine.handle(Event::Activation, 10);
    assert!(matches!(first, Action::StartTimer(_)));
    assert_eq!(machine.state(), RoundState::Armed);
    let second = machine.handle(Event::Activation, 20);
    assert!(matches!(second, Action::TimerCanceled));
    assert_eq!(machine.state(), RoundState::FalseStart);
    assert_eq!(machine.pending_since(), None);
}

#[test]
fn a_full_round_measures_the_gap_after_the_signal() {
    let mut machine = fresh();
    machine.handle(Event::Activation, 500);
    assert_eq!(machine.state(), RoundState::Armed);
    let fired = machine.handle(Event::TimerFired, 3700);
    assert!(matches!(fired, Action::Redraw));
    assert_eq!(machine.state(), RoundState::Signaled { start_ms: 3700 });
    assert_eq!(machine.pending_since(), None);
    let answered = machine.handle(Event::Activation, 3950);
    assert!(matches!(answered, Action::Report(250)));
    assert_eq!(machine.state(), RoundState::Result(250));
}

#[test]
fn a_second_timer_firing_while_signaled_changes_nothing() {
    let mut machine = fresh();
    machine.handle(Event::Activation, 0);
    machine.handle(Event::TimerFired, 2500);
    assert_eq!(machine.state(), RoundState::Signaled { start_ms: 2500 });
    let late = machine.handle(Event::TimerFired, 2600);
    assert!(matches!(late, Action::Redraw));
    assert_eq!(machine.state(), RoundState::Signaled { start_ms: 2500 });
    let answered = machine.handle(Event::Activation, 2900);
    assert!(matches!(answered, Action::Report(400)));
    assert_eq!(machine.state(), RoundState::Result(400));
}

#[test]
fn quit_stops_in_every_state_and_keeps_it() {
    for mut machine in every_state() {
        let before = machine.state();
        let pending = machine.pending_since();
        let action = machine.handle(Event::Quit, 9000);
        assert!(matches!(action, Action::Stop));
        assert_eq!(machine.state(), before);
        assert_eq!(machine.pending_since(), pending);
    }
}

#[test]
fn quit_while_armed_keeps_the_timer_alive() {
    let mut machine = fresh();
    let task = match machine.handle(Event::Activation, 5) {
        Action::StartTimer(task) => task,
        other => panic!("expected a timer to start, got {:?}", other),
    };
    machine.handle(Event::Quit, 6);
    assert_eq!(machine.state(), RoundState::Armed);
    assert_eq!(machine.pending_since(), Some(5));
    assert!(!task.registration.handle().is_aborted());
}

#[test]
fn activation_restarts_from_a_result_and_from_a_false_start() {
    let mut after_result = with_result(321);
    assert_eq!(after_result.state(), RoundState::Result(321));
    let action = after_result.handle_with_sample(Event::Activation, 7000, 4999);
    assert_eq!(after_result.state(), RoundState::Armed);
    assert_eq!(after_result.pending_since(), Some(7000));
    match action {
        Action::StartTimer(task) => assert_eq!(task.delay_ms, 6999),
        other => panic!("expected a timer to start, got {:?}", other),
    }

    let mut after_false_start = false_started();
    assert_eq!(after_false_start.state(), RoundState::FalseStart);
    let action = after_false_start.handle_with_sample(Event::Activation, 8000, 5000);
    assert_eq!(after_false_start.state(), RoundState::Armed);
    assert_eq!(after_false_start.pending_since(), Some(8000));
    match action {
        Action::StartTimer(task) => assert_eq!(task.delay_ms, 2000),
        other => panic!("expected a timer to start, got {:?}", other),
    }
}

#[test]
fn timer_firing_outside_the_armed_state_is_a_noop_however_often() {
    for mut machine in vec![fresh(), signaled(1000), with_result(321), false_started()] {
        let before = machine.state();
        for round in 0..5u128 {
            let action = machine.handle(Event::TimerFired, 10_000 + round);
            assert!(matches!(action, Action::Redraw));
            assert_eq!(machine.state(), before);
            assert_eq!(machine.pending_since(), None);
        }
    }
}

#[test]
fn a_late_timer_firing_after_a_false_start_changes_nothing() {
    let mut machine = false_started();
    let action = machine.handle(Event::TimerFired, 300);
    assert!(matches!(action, Action::Redraw));
    assert_eq!(machine.state(), RoundState::FalseStart);
}

#[test]
fn an_elapsed_time_of_zero_is_a_result_of_zero() {
    let mut machine = signaled(4000);
    let action = machine.handle(Event::Activation, 4000);
    assert!(matches!(action, Action::Report(0)));
    assert_eq!(machine.state(), RoundState::Result(0));
}

#[test]
fn an_elapsed_time_at_the_maximum_is_kept() {
    let mut machine = signaled(4000);
    let action = machine.handle(Event::Activation, 4000 + 65_535);
    assert!(matches!(action, Action::Report(65_535)));
    assert_eq!(machine.state(), RoundState::Result(65_535));
}

#[test]
fn an_elapsed_time_above_the_maximum_is_clamped() {
    let mut machine = signaled(4000);
    let action = machine.handle(Event::Activation, 4000 + 65_536);
    assert!(matches!(action, Action::Report(65_536)));
    assert_eq!(machine.state(), RoundState::Result(u16::MAX));

    let mut machine = signaled(0);
    let action = machine.handle(Event::Activation, u128::MAX);
    assert!(matches!(action, Action::Report(u128::MAX)));
    assert_eq!(machine.state(), RoundState::Result(u16::MAX));
}

#[test]
fn a_clock_reading_before_the_signal_counts_as_zero() {
    let mut machine = signaled(4000);
    let action = machine.handle(Event::Activation, 3999);
    assert!(matches!(action, Action::Report(0)));
    assert_eq!(machine.state(), RoundState::Result(0));
}

#[test]
fn chains_of_pairs_from_idle_never_return_to_idle() {
    let orders = [[Event::Activation, Event::TimerFired], [Event::TimerFired, Event::Activation]];
    for first in orders.iter() {
        for second in orders.iter() {
            for third in orders.iter() {
                let mut machine = fresh();
                let mut now: u128 = 0;
                for pair in [first, second, third].iter() {
                    for event in pair.iter() {
                        now += 10;
                        machine.handle(*event, now);
                    }
                    assert_ne!(machine.state(), RoundState::Idle);
                }
            }
        }
    }
}

#[test]
fn chains_of_pairs_from_idle_reach_every_other_state() {
    let mut machine = fresh();
    machine.handle(Event::TimerFired, 0);
    assert_eq!(machine.state(), RoundState::Idle);
    machine.handle(Event::Activation, 0);
    assert_eq!(machine.state(), RoundState::Armed);

    let mut machine = fresh();
    machine.handle(Event::Activation, 0);
    machine.handle(Event::TimerFired, 77);
    assert_eq!(machine.state(), RoundState::Signaled { start_ms: 77 });

    let mut machine = fresh();
    machine.handle(Event::Activation, 0);
    machine.handle(Event::TimerFired, 0);
    machine.handle(Event::Activation, 4321);
    machine.handle(Event::TimerFired, 4321);
    assert_eq!(machine.state(), RoundState::Result(4321));

    let mut machine = fresh();
    machine.handle(Event::TimerFired, 0);
    machine.handle(Event::Activation, 0);
    machine.handle(Event::Activation, 0);
    machine.handle(Event::TimerFired, 0);
    assert_eq!(machine.state(), RoundState::FalseStart);
}

#[test]
fn the_same_events_and_samples_give_the_same_states() {
    let script = [
        (Event::Activation, 10u128, 17u16),
        (Event::TimerFired, 2027, 0),
        (Event::TimerFired, 2030, 0),
        (Event::Activation, 2300, 0),
        (Event::Activation, 5000, 999),
        (Event::Activation, 5100, 0),
        (Event::TimerFired, 7999, 0),
        (Event::Quit, 8000, 0),
    ];
    let expected = [
        RoundState::Armed,
        RoundState::Signaled { start_ms: 2027 },
        RoundState::Signaled { start_ms: 2027 },
        RoundState::Result(273),
        RoundState::Armed,
        RoundState::FalseStart,
        RoundState::FalseStart,
        RoundState::FalseStart,
    ];
    for _ in 0..2 {
        let mut machine = fresh();
        for (step, wanted) in script.iter().zip(expected.iter()) {
            machine.handle_with_sample(step.0, step.1, step.2);
            assert_eq!(machine.state(), *wanted);
        }
    }
}

#[test]
fn starts_round_holds_of_idle_result_and_false_start() {
    assert!(RoundState::Idle.starts_round());
    assert!(RoundState::Result(5).starts_round());
    assert!(RoundState::FalseStart.starts_round());
    assert!(!RoundState::Armed.starts_round());
    assert!(!RoundState::Signaled { start_ms: 3 }.starts_round());
}
