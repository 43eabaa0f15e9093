use std::time::Duration;

use worker_engine::Config;
use worker_engine::Supervisor;
use worker_engine::TickOutcome;
use worker_engine::WorkOrder;
use worker_engine::WorkerTask;

fn runtime() -> tokio::runtime::Runtime {
    tokio::runtime::Builder::new_multi_thread()
        .worker_threads(2)
        .enable_time()
        .build()
        .unwrap()
}

async fn drive(order: WorkOrder) {
    let mut task = WorkerTask::new(order.total_units);
    let _ = order.sender.send(task.opening_event()).await;
    while !task.is_finished() {
        match task.on_tick(order.signal.is_cancelled()) {
            TickOutcome::Halt(evs) => {
                for e in evs {
                    let _ = order.sender.send(e).await;
                }
            }
            TickOutcome::Work => {
                tokio::time::sleep(Duration::from_millis(order.unit_delay_ms)).await;
                for e in task.work_succeeded() {
                    let _ = order.sender.send(e).await;
                }
            }
        }
    }
}

#[test]
fn run_to_completion_over_the_channel() {
    let rt = runtime();
    rt.block_on(async {
        let cfg = Config {
            total_units: 5,
            unit_delay_ms: 1,
            log_capacity: 100,
            channel_capacity: 100,
        };
        let mut sup = Supervisor::new(cfg);
        let order = sup.start(0).unwrap();
        let worker = tokio::spawn(drive(order));
        worker.await.unwrap();
        sup.drain();
        assert!(!sup.is_running());
        assert_eq!(sup.completed_units(), 5);
        assert_eq!(sup.status().as_str(), "Complete");
        let logs = sup.logs().clone();
        assert!(logs.iter().any(|l| l == "Worker: Running"));
        assert_eq!(
            logs.last().map(|s| s.as_str()),
            Some("Worker completed successfully!")
        );
        // nothing further arrives once the run is over
        let after = sup.completed_units();
        sup.drain();
        assert_eq!(sup.completed_units(), after);
        assert!(!sup.is_running());
    });
}

#[test]
fn cancellation_over_the_channel_ends_in_error() {
    let rt = runtime();
    rt.block_on(async {
        let cfg = Config {
            total_units: 100,
            unit_delay_ms: 1,
            log_capacity: 100,
            channel_capacity: 100,
        };
        let mut sup = Supervisor::new(cfg);
        let order = sup.start(0).unwrap();
        // request cancellation before the worker makes its first check: the
        // run must end in the cancellation error, never in Complete
        sup.cancel();
        assert_eq!(
            sup.logs().last().map(|s| s.as_str()),
            Some("Cancelling worker...")
        );
        let worker = tokio::spawn(drive(order));
        worker.await.unwrap();
        sup.drain();
        assert!(!sup.is_running());
        assert_eq!(sup.status().as_str(), "Error: cancelled by user");
        let logs = sup.logs().clone();
        assert!(logs.iter().any(|l| l == "cancelled"));
        assert_eq!(
            logs.last().map(|s| s.as_str()),
            Some("Worker error: cancelled by user")
        );
        assert_eq!(sup.completed_units(), 0);
    });
}

#[test]
fn events_arrive_in_emission_order() {
    let rt = runtime();
    rt.block_on(async {
        let cfg = Config {
            total_units: 25,
            unit_delay_ms: 0,
            log_capacity: 100,
            channel_capacity: 4,
        };
        let mut sup = Supervisor::new(cfg);
        let order = sup.start(0).unwrap();
        let worker = tokio::spawn(drive(order));
        // drain concurrently with the producer, which blocks with
        // backpressure on the small channel until slots free up
        let mut counts: Vec<u32> = Vec::new();
        loop {
            sup.drain();
            let done = sup.completed_units();
            if counts.last() != Some(&done) {
                assert!(counts.last().map_or(true, |prev| *prev <= done));
                counts.push(done);
            }
            if !sup.is_running() && sup.status().as_str() != "Starting..." {
                break;
            }
            tokio::time::sleep(Duration::from_millis(1)).await;
        }
        worker.await.unwrap();
        assert_eq!(sup.completed_units(), 25);
        assert_eq!(sup.status().as_str(), "Complete");
    });
}
