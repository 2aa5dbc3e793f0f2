//! The control loop: decisions, outcomes, failure policy, cancellation.

use robot_monitor::AcquisitionError;
use robot_monitor::ControlLoop;
use robot_monitor::CycleInput;
use robot_monitor::CycleOutcome;
use robot_monitor::LoopState;
use robot_monitor::Reading;
use robot_monitor::SendError;
use robot_monitor::control::DEFAULT_PERIOD_MS;

fn reading(temperature: f32) -> Reading {
    Reading::new(temperature.to_bits(), 0.5f32.to_bits(), 1.2f32.to_bits())
}

fn new_loop() -> ControlLoop {
    ControlLoop::new(80.0f32.to_bits(), DEFAULT_PERIOD_MS)
}

#[test]
fn new_loop_has_documented_defaults() {
    let l = new_loop();
    assert_eq!(l.detector.threshold, 80.0f32.to_bits());
    assert_eq!(l.period_ms, 5000);
    assert_eq!(l.stop_payload, "STOP");
    assert_eq!(l.state, LoopState::Running);
    assert!(l.should_continue());
}

#[test]
fn normal_reading_sends_nothing() {
    // Threshold eighty, temperature seventy-five: verdict false, no send.
    let l = new_loop();
    let cmd = l.begin_cycle(&Ok(reading(75.0)));
    assert!(cmd.is_none());
}

#[test]
fn anomalous_reading_sends_stop_once() {
    // Threshold eighty, temperature eighty-five: verdict true, one send.
    let l = new_loop();
    let cmd = l.begin_cycle(&Ok(reading(85.0)));
    let cmd = cmd.expect("an anomalous reading must dispatch a command");
    assert_eq!(cmd.payload, "STOP");
}

#[test]
fn failed_acquisition_sends_nothing() {
    let l = new_loop();
    let cmd = l.begin_cycle(&Err(AcquisitionError {
        cause: "sensor unreachable".to_string(),
    }));
    assert!(cmd.is_none());
}

#[test]
fn send_count_is_one_iff_verdict_true() {
    // The test plays the mock command channel and counts send calls.
    let l = new_loop();
    let samples = vec![
        Ok(reading(75.0)),
        Ok(reading(85.0)),
        Err(AcquisitionError { cause: "offline".to_string() }),
        Ok(reading(80.0)),
        Ok(reading(100.0)),
    ];
    let mut send_calls = 0;
    for sample in &samples {
        if l.begin_cycle(sample).is_some() {
            send_calls += 1;
        }
    }
    assert_eq!(send_calls, 2);
}

#[test]
fn end_cycle_classifies_each_attempt() {
    let l = new_loop();
    assert_eq!(l.end_cycle(None), CycleOutcome::Normal);
    assert_eq!(l.end_cycle(Some(Ok(()))), CycleOutcome::AnomalySentOk);
    let e = SendError { cause: "transport down".to_string() };
    assert_eq!(
        l.end_cycle(Some(Err(e.clone()))),
        CycleOutcome::AnomalySendFailed(e)
    );
}

#[test]
fn scenario_normal_cycle() {
    let mut l = new_loop();
    let outcomes = l.run_recorded(vec![CycleInput {
        sample: Ok(reading(75.0)),
        send_result: Ok(()),
        cancel_during_wait: false,
    }]);
    assert_eq!(outcomes, vec![CycleOutcome::Normal]);
    assert!(l.should_continue());
}

#[test]
fn scenario_anomaly_sent_ok() {
    let mut l = new_loop();
    let outcomes = l.run_recorded(vec![CycleInput {
        sample: Ok(reading(85.0)),
        send_result: Ok(()),
        cancel_during_wait: false,
    }]);
    assert_eq!(outcomes, vec![CycleOutcome::AnomalySentOk]);
    assert!(l.should_continue());
}

#[test]
fn scenario_send_failure_does_not_stop_the_loop() {
    let mut l = new_loop();
    let outcomes = l.run_recorded(vec![
        CycleInput {
            sample: Ok(reading(85.0)),
            send_result: Err(SendError { cause: "publisher gone".to_string() }),
            cancel_during_wait: false,
        },
        CycleInput {
            sample: Ok(reading(75.0)),
            send_result: Ok(()),
            cancel_during_wait: false,
        },
    ]);
    assert_eq!(
        outcomes,
        vec![
            CycleOutcome::AnomalySendFailed(SendError { cause: "publisher gone".to_string() }),
            CycleOutcome::Normal,
        ]
    );
    assert!(l.should_continue());
}

#[test]
fn scenario_failed_acquisition_skips_cycle_only() {
    let mut l = new_loop();
    let outcomes = l.run_recorded(vec![
        CycleInput {
            sample: Err(AcquisitionError { cause: "sensor offline".to_string() }),
            send_result: Ok(()),
            cancel_during_wait: false,
        },
        CycleInput {
            sample: Ok(reading(85.0)),
            send_result: Ok(()),
            cancel_during_wait: false,
        },
    ]);
    assert_eq!(
        outcomes,
        vec![CycleOutcome::Normal, CycleOutcome::AnomalySentOk]
    );
    assert!(l.should_continue());
}

#[test]
fn scenario_cancellation_stops_between_cycles() {
    let mut l = new_loop();
    let outcomes = l.run_recorded(vec![
        CycleInput {
            sample: Ok(reading(75.0)),
            send_result: Ok(()),
            cancel_during_wait: false,
        },
        CycleInput {
            sample: Ok(reading(85.0)),
            send_result: Ok(()),
            cancel_during_wait: true,
        },
        CycleInput {
            sample: Ok(reading(90.0)),
            send_result: Ok(()),
            cancel_during_wait: false,
        },
    ]);
    // The cancelled cycle still ran to completion; the third never started.
    assert_eq!(
        outcomes,
        vec![CycleOutcome::Normal, CycleOutcome::AnomalySentOk]
    );
    assert_eq!(l.state, LoopState::Stopped);
    assert!(!l.should_continue());
}

#[test]
fn after_wait_honors_cancellation_only_when_requested() {
    let mut l = new_loop();
    l.after_wait(false);
    assert_eq!(l.state, LoopState::Running);
    l.after_wait(true);
    assert_eq!(l.state, LoopState::Stopped);
}
