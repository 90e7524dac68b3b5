//! The subscription-worker framework from the outside: the escalation
//! policy, the scripted runner, the scenarios it promises, and isolation
//! between two workers.

use perspektiv::subscribable::{run_script, run_two, Error, StopReason, Worker};
use perspektiv::threlm::{Actor, Model, Threlm};

/// A model that records every message it observes, in order.
struct Recorder {
    seen: Vec<u32>,
}

impl Model for Recorder {
    type Message = u32;

    fn connect(&self, _stream: Actor<Self>) {}

    fn update(&mut self, message: u32, _stream: Actor<Self>) {
        self.seen.push(message);
    }
}

fn recorder() -> Threlm<Recorder> {
    Threlm::new(Recorder { seen: Vec::new() })
}

fn nonfatal() -> Result<u32, Error> {
    Err(Error::new(String::from("transient read error"), false))
}

fn fatal() -> Result<u32, Error> {
    Err(Error::new(String::from("malformed event data"), true))
}

#[test]
fn error_carries_message_and_fatality() {
    let e = Error::new(String::from("device vanished"), true);
    assert!(e.is_fatal());
    assert_eq!(e.message(), "device vanished");
    let e = Error::new(String::from("spurious wakeup"), false);
    assert!(!e.is_fatal());
}

#[test]
fn factory_failure_makes_no_worker() {
    let r = Worker::from_factory::<u32>(Err(String::from("no such device")));
    match r {
        Ok(_) => panic!("a failed factory must not yield a worker"),
        Err(message) => assert_eq!(message, "no such device"),
    }
}

#[test]
fn factory_success_starts_with_a_clean_record() {
    let r = Worker::from_factory::<u32>(Ok(42u32));
    match r {
        Ok((op, worker)) => {
            assert_eq!(op, 42);
            assert_eq!(worker.strikes(), 0);
        }
        Err(_) => panic!("a successful factory must yield a worker"),
    }
}

#[test]
fn two_strikes_are_tolerated_and_reset_by_a_success() {
    // Ok, Ok, nonfatal, nonfatal, Ok: everything delivered, counter
    // climbing 0,0,1,2 and resetting to 0, worker still alive.
    let mut owner = recorder();
    let actor = owner.actor();
    let script = vec![Ok(2u32), Ok(5), nonfatal(), nonfatal(), Ok(7)];
    let report = run_script(&mut owner, &actor, script);
    assert_eq!(report.stopped, None);
    assert_eq!(report.counters, vec![0, 0, 1, 2, 0]);
    owner.drain();
    assert_eq!(owner.model().unwrap().seen, vec![2, 5, 7]);
}

#[test]
fn three_consecutive_strikes_terminate_the_worker() {
    let mut owner = recorder();
    let actor = owner.actor();
    let script = vec![nonfatal(), nonfatal(), nonfatal()];
    let report = run_script(&mut owner, &actor, script);
    assert_eq!(report.stopped, Some(StopReason::Escalated));
    assert_eq!(report.counters, vec![1, 2, 3]);
    owner.drain();
    assert!(owner.model().unwrap().seen.is_empty());
}

#[test]
fn a_success_after_an_escalation_is_never_polled() {
    // The worker stops at the third strike; the rest of the script is
    // never consumed, so nothing further is delivered.
    let mut owner = recorder();
    let actor = owner.actor();
    let script = vec![nonfatal(), nonfatal(), nonfatal(), Ok(9u32)];
    let report = run_script(&mut owner, &actor, script);
    assert_eq!(report.stopped, Some(StopReason::Escalated));
    assert_eq!(report.counters.len(), 3);
    owner.drain();
    assert!(owner.model().unwrap().seen.is_empty());
}

#[test]
fn one_fatal_error_terminates_immediately() {
    let mut owner = recorder();
    let actor = owner.actor();
    let script = vec![Ok(1u32), fatal()];
    let report = run_script(&mut owner, &actor, script);
    assert_eq!(report.stopped, Some(StopReason::Fatal));
    assert_eq!(report.counters, vec![0, 0]);
    owner.drain();
    assert_eq!(owner.model().unwrap().seen, vec![1]);
}

#[test]
fn a_fatal_error_short_circuits_whatever_the_record() {
    let mut owner = recorder();
    let actor = owner.actor();
    let script = vec![nonfatal(), nonfatal(), fatal(), Ok(4u32)];
    let report = run_script(&mut owner, &actor, script);
    assert_eq!(report.stopped, Some(StopReason::Fatal));
    assert_eq!(report.counters, vec![1, 2, 2]);
    owner.drain();
    assert!(owner.model().unwrap().seen.is_empty());
}

#[test]
fn a_dead_target_stops_the_worker_gracefully() {
    let mut owner = recorder();
    let actor = owner.actor();
    owner.destroy();
    let script = vec![nonfatal(), Ok(3u32), Ok(4)];
    let report = run_script(&mut owner, &actor, script);
    assert_eq!(report.stopped, Some(StopReason::TargetDead));
    assert_eq!(report.counters, vec![1, 0]);
    assert_eq!(owner.queue_len(), 0);
}

#[test]
fn workers_are_isolated_from_each_others_failures() {
    // Worker A escalates and dies; worker B delivers everything, under two
    // different interleavings.
    for schedule in [vec![true, false, true, false, true, false], vec![false, false, true]] {
        let mut owner = recorder();
        let a: Actor<Recorder> = Actor::new(1);
        let b: Actor<Recorder> = Actor::new(2);
        let script_a = vec![nonfatal(), nonfatal(), nonfatal()];
        let script_b = vec![Ok(21u32), Ok(22)];
        let (report_a, report_b) = run_two(&mut owner, &a, script_a, &b, script_b, schedule);
        assert_eq!(report_a.stopped, Some(StopReason::Escalated));
        assert_eq!(report_b.stopped, None);
        owner.drain();
        let seen = &owner.model().unwrap().seen;
        assert_eq!(seen.iter().filter(|m| **m >= 20).copied().collect::<Vec<u32>>(), vec![
            21, 22
        ]);
        assert_eq!(seen.iter().filter(|m| **m < 20).count(), 0);
    }
}

#[test]
fn a_fatal_worker_does_not_slow_its_neighbour() {
    let mut owner = recorder();
    let a: Actor<Recorder> = Actor::new(1);
    let b: Actor<Recorder> = Actor::new(2);
    let script_a = vec![Ok(11u32), fatal()];
    let script_b = vec![Ok(21u32), nonfatal(), Ok(22)];
    let schedule = vec![false, true, true, false, false];
    let (report_a, report_b) = run_two(&mut owner, &a, script_a, &b, script_b, schedule);
    assert_eq!(report_a.stopped, Some(StopReason::Fatal));
    assert_eq!(report_b.stopped, None);
    assert_eq!(report_a.counters, vec![0, 0]);
    assert_eq!(report_b.counters, vec![0, 1, 0]);
    owner.drain();
    let seen = &owner.model().unwrap().seen;
    let from_b: Vec<u32> = seen.iter().filter(|m| **m >= 20).copied().collect();
    assert_eq!(from_b, vec![21, 22]);
    let from_a: Vec<u32> = seen.iter().filter(|m| **m < 20).copied().collect();
    assert_eq!(from_a, vec![11]);
}
