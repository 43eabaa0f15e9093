use worker_engine::Config;
use worker_engine::Event;
use worker_engine::LogBuffer;
use worker_engine::Supervisor;
use worker_engine::simulate_run;

fn observed_state(s: &Supervisor) -> (bool, u32, u32, String, Vec<String>) {
    (
        s.is_running(),
        s.completed_units(),
        s.total_units(),
        s.status().clone(),
        s.logs().clone(),
    )
}

fn small_config() -> Config {
    Config { total_units: 5, unit_delay_ms: 1, log_capacity: 100, channel_capacity: 100 }
}

#[test]
fn default_configuration() {
    let cfg = Config::default();
    assert_eq!(cfg.total_units, 100);
    assert_eq!(cfg.unit_delay_ms, 50);
    assert_eq!(cfg.log_capacity, 100);
    assert_eq!(cfg.channel_capacity, 100);
}

#[test]
fn fresh_supervisor_is_idle() {
    let sup = Supervisor::new(small_config());
    assert!(!sup.is_running());
    assert_eq!(sup.completed_units(), 0);
    assert_eq!(sup.total_units(), 5);
    assert_eq!(sup.status().as_str(), "Idle");
    assert!(sup.logs().is_empty());
    assert_eq!(sup.elapsed_ms(12345), 0);
    assert_eq!(sup.throughput_units_per_sec(12345), 0);
}

#[test]
fn drain_on_empty_channel_is_a_no_op() {
    let mut sup = Supervisor::new(small_config());
    sup.log("hello".to_string());
    let before = observed_state(&sup);
    sup.drain();
    let once = observed_state(&sup);
    sup.drain();
    let twice = observed_state(&sup);
    assert_eq!(before, once);
    assert_eq!(once, twice);
}

#[test]
fn start_while_running_hands_out_nothing() {
    let mut sup = Supervisor::new(small_config());
    let first = sup.start(0);
    assert!(first.is_some());
    assert!(sup.is_running());
    let second = sup.start(10);
    assert!(second.is_none());
    assert!(sup.is_running());
    assert_eq!(
        sup.logs().last().map(|s| s.as_str()),
        Some("Worker already running!")
    );
    // the one run's events, applied in order: counts end at exactly the
    // configured unit count, with no double counting
    for e in simulate_run(5, None) {
        sup.apply_event(e);
    }
    assert!(!sup.is_running());
    assert_eq!(sup.completed_units(), 5);
    assert_eq!(sup.status().as_str(), "Complete");
    assert_eq!(
        sup.logs().last().map(|s| s.as_str()),
        Some("Worker completed successfully!")
    );
}

#[test]
fn cancel_without_a_run_is_a_logged_no_op() {
    let mut sup = Supervisor::new(small_config());
    sup.cancel();
    assert!(!sup.is_running());
    assert_eq!(sup.logs().last().map(|s| s.as_str()), Some("No worker to cancel"));
    sup.cancel();
    assert_eq!(sup.logs().len(), 2);
}

#[test]
fn error_event_is_reflected_in_status_and_log() {
    let mut sup = Supervisor::new(small_config());
    sup.start(0);
    sup.apply_event(Event::Error("cancelled by user".to_string()));
    assert!(!sup.is_running());
    assert_eq!(sup.status().as_str(), "Error: cancelled by user");
    assert_eq!(
        sup.logs().last().map(|s| s.as_str()),
        Some("Worker error: cancelled by user")
    );
    // the supervisor is idle again and can be restarted
    assert!(sup.start(0).is_some());
    assert!(sup.is_running());
}

#[test]
fn progress_updates_count_and_status() {
    let mut sup = Supervisor::new(small_config());
    sup.start(0);
    sup.apply_event(Event::Progress { done: 2, total: 5 });
    assert_eq!(sup.completed_units(), 2);
    assert_eq!(sup.status().as_str(), "Processing 2/5");
    assert!(sup.is_running());
}

#[test]
fn progress_is_clamped_to_the_unit_count() {
    let mut sup = Supervisor::new(small_config());
    sup.start(0);
    sup.apply_event(Event::Progress { done: 50, total: 5 });
    assert_eq!(sup.completed_units(), 5);
    assert_eq!(sup.status().as_str(), "Processing 5/5");
}

#[test]
fn elapsed_and_throughput() {
    let mut sup = Supervisor::new(small_config());
    sup.start(1000);
    assert_eq!(sup.elapsed_ms(1000), 0);
    assert_eq!(sup.elapsed_ms(3500), 2500);
    // a clock that reads earlier than the start counts as no elapsed time
    assert_eq!(sup.elapsed_ms(500), 0);
    sup.apply_event(Event::Progress { done: 4, total: 5 });
    assert_eq!(sup.throughput_units_per_sec(2000), 4);
    assert_eq!(sup.throughput_units_per_sec(3000), 2);
    assert_eq!(sup.throughput_units_per_sec(1000), 0);
}

#[test]
fn log_buffer_evicts_oldest_first() {
    let mut buf = LogBuffer::new(3);
    for line in ["a", "b", "c", "d", "e"] {
        buf.push(line.to_string());
    }
    assert_eq!(buf.len(), 3);
    assert_eq!(buf.capacity(), 3);
    assert_eq!(buf.entries(), &vec!["c".to_string(), "d".to_string(), "e".to_string()]);
}

#[test]
fn log_buffer_never_exceeds_capacity() {
    let mut buf = LogBuffer::new(4);
    for i in 0..100u32 {
        buf.push(format!("line {}", i));
        assert!(buf.len() <= 4);
    }
    assert_eq!(
        buf.entries(),
        &vec![
            "line 96".to_string(),
            "line 97".to_string(),
            "line 98".to_string(),
            "line 99".to_string(),
        ]
    );
}

#[test]
fn supervisor_log_respects_capacity() {
    let cfg = Config { total_units: 5, unit_delay_ms: 1, log_capacity: 2, channel_capacity: 8 };
    let mut sup = Supervisor::new(cfg);
    sup.log("one".to_string());
    sup.log("two".to_string());
    sup.log("three".to_string());
    assert_eq!(sup.log_capacity(), 2);
    assert_eq!(sup.logs(), &vec!["two".to_string(), "three".to_string()]);
}

#[test]
fn full_run_applied_in_order_matches_the_narrative() {
    let mut sup = Supervisor::new(small_config());
    assert!(sup.start(0).is_some());
    assert_eq!(sup.status().as_str(), "Starting...");
    let mut seen_running = false;
    for e in simulate_run(5, None) {
        sup.apply_event(e);
        if sup.is_running() {
            seen_running = true;
        }
    }
    assert!(seen_running);
    assert!(!sup.is_running());
    assert_eq!(sup.completed_units(), 5);
    let logs = sup.logs();
    assert!(logs.iter().any(|l| l == "Starting worker..."));
    assert!(logs.iter().any(|l| l == "Worker: Running"));
    assert!(logs.iter().any(|l| l == "All units processed successfully!"));
    assert_eq!(logs.last().map(|s| s.as_str()), Some("Worker completed successfully!"));
}
