use worker_engine::Event;
use worker_engine::TickOutcome;
use worker_engine::WorkerTask;
use worker_engine::simulate_run;
use worker_engine::u32_to_decimal;

#[test]
fn decimal_rendering() {
    assert_eq!(u32_to_decimal(0), "0");
    assert_eq!(u32_to_decimal(7), "7");
    assert_eq!(u32_to_decimal(42), "42");
    assert_eq!(u32_to_decimal(100), "100");
    assert_eq!(u32_to_decimal(4294967295), "4294967295");
}

#[test]
fn five_units_run_to_completion() {
    let evs = simulate_run(5, None);
    assert_eq!(evs.len(), 8);
    assert!(matches!(&evs[0], Event::Log(s) if s == "Worker: Running"));
    let mut fractions: Vec<f64> = Vec::new();
    for e in &evs {
        if let Event::Progress { done, total } = e {
            assert_eq!(*total, 5);
            fractions.push(*done as f64 / *total as f64);
        }
    }
    assert_eq!(fractions, vec![0.2, 0.4, 0.6, 0.8, 1.0]);
    assert!(matches!(&evs[6], Event::Log(s) if s == "All units processed successfully!"));
    assert_eq!(evs[7], Event::Complete);
}

#[test]
fn hundred_units_cancelled_after_third_progress() {
    let evs = simulate_run(100, Some(3));
    assert_eq!(
        evs,
        vec![
            Event::Log("Worker: Running".to_string()),
            Event::Progress { done: 1, total: 100 },
            Event::Progress { done: 2, total: 100 },
            Event::Progress { done: 3, total: 100 },
            Event::Log("cancelled".to_string()),
            Event::Error("cancelled by user".to_string()),
        ]
    );
}

#[test]
fn exactly_one_terminal_event_per_run() {
    for (total, cancel_at) in [
        (0, None),
        (1, None),
        (25, None),
        (5, Some(0)),
        (5, Some(3)),
        (5, Some(5)),
        (30, Some(17)),
    ] {
        let evs = simulate_run(total, cancel_at);
        let terminals = evs
            .iter()
            .filter(|e| matches!(e, Event::Complete | Event::Error(_)))
            .count();
        assert_eq!(terminals, 1);
        assert!(matches!(
            evs.last().unwrap(),
            Event::Complete | Event::Error(_)
        ));
    }
}

#[test]
fn cancelled_run_never_completes() {
    for c in 0..5 {
        let evs = simulate_run(5, Some(c));
        assert!(!evs.iter().any(|e| matches!(e, Event::Complete)));
        assert_eq!(
            evs.last().unwrap(),
            &Event::Error("cancelled by user".to_string())
        );
    }
}

#[test]
fn cancellation_requested_after_last_check_still_completes() {
    // the flag is first observed set only at the check made with 5 units
    // finished, where the run completes instead
    let evs = simulate_run(5, Some(5));
    assert_eq!(evs.last().unwrap(), &Event::Complete);
}

#[test]
fn progress_is_monotone_and_reaches_one() {
    let evs = simulate_run(25, None);
    let mut last: f64 = 0.0;
    let mut final_fraction: f64 = 0.0;
    for e in &evs {
        if let Event::Progress { done, total } = e {
            let f = *done as f64 / *total as f64;
            assert!(f >= last);
            last = f;
            final_fraction = f;
        }
    }
    assert_eq!(final_fraction, 1.0);
}

#[test]
fn every_tenth_unit_logs_a_summary() {
    let evs = simulate_run(20, None);
    let logs: Vec<&str> = evs
        .iter()
        .filter_map(|e| match e {
            Event::Log(s) => Some(s.as_str()),
            _ => None,
        })
        .collect();
    assert_eq!(
        logs,
        vec![
            "Worker: Running",
            "Processed 10/20 units",
            "Processed 20/20 units",
            "All units processed successfully!",
        ]
    );
}

#[test]
fn zero_units_completes_immediately() {
    let evs = simulate_run(0, None);
    assert_eq!(
        evs,
        vec![
            Event::Log("Worker: Running".to_string()),
            Event::Log("All units processed successfully!".to_string()),
            Event::Complete,
        ]
    );
}

#[test]
fn failing_unit_of_work_becomes_error_event() {
    let mut task = WorkerTask::new(3);
    assert!(matches!(task.on_tick(false), TickOutcome::Work));
    let evs = task.work_succeeded();
    assert_eq!(evs, vec![Event::Progress { done: 1, total: 3 }]);
    assert!(matches!(task.on_tick(false), TickOutcome::Work));
    let evs = task.work_failed("disk full".to_string());
    assert_eq!(evs, vec![Event::Error("disk full".to_string())]);
    assert!(task.is_finished());
    assert_eq!(task.done_units(), 1);
}

#[test]
fn task_polls_match_simulated_run() {
    let mut task = WorkerTask::new(12);
    let mut evs: Vec<Event> = vec![task.opening_event()];
    let cancel_at: u32 = 7;
    while !task.is_finished() {
        let cancelled = task.done_units() >= cancel_at;
        match task.on_tick(cancelled) {
            TickOutcome::Halt(mut more) => evs.append(&mut more),
            TickOutcome::Work => {
                let mut more = task.work_succeeded();
                evs.append(&mut more);
            }
        }
    }
    assert_eq!(evs, simulate_run(12, Some(cancel_at)));
}
