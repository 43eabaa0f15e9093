//! A cancellable background-worker engine: a task performs discrete units of
//! work, reports progress and log lines through a bounded event channel, and
//! can be cooperatively cancelled; a supervisor owns at most one active task
//! and folds the event stream into its own state with a non-blocking drain.

use vstd::prelude::*;

mod channel;
mod decimal;
mod event;
mod logbuf;
mod signal;
mod supervisor;
mod tabs;
mod todo;
mod worker;

pub use decimal::dec_str;
pub use decimal::u32_to_decimal;
pub use event::Event;
pub use event::EventV;
pub use event::event_views;
pub use event::is_terminal;
pub use logbuf::LogBuffer;
pub use logbuf::LogBufferV;
pub use logbuf::buf_push;
pub use logbuf::lemma_buf_push_bounded_fifo;
pub use signal::CancelSignal;
pub use supervisor::Config;
pub use supervisor::Supervisor;
pub use supervisor::SupervisorV;
pub use supervisor::WorkOrder;
pub use supervisor::apply_one;
pub use supervisor::apply_seq;
pub use supervisor::lemma_apply_no_events;
pub use supervisor::lemma_apply_seq_add;
pub use supervisor::lemma_apply_seq_one;
pub use supervisor::lemma_apply_seq_push;
pub use supervisor::lemma_cancelled_run_reports_error;
pub use supervisor::lemma_full_run_counts_exactly;
pub use supervisor::msg_cancelling;
pub use supervisor::msg_completed;
pub use supervisor::msg_conflict;
pub use supervisor::msg_no_worker;
pub use supervisor::msg_starting;
pub use supervisor::msg_worker_error;
pub use supervisor::spec_elapsed_ms;
pub use supervisor::spec_throughput;
pub use supervisor::status_complete;
pub use supervisor::status_error;
pub use supervisor::status_idle;
pub use supervisor::status_processing;
pub use supervisor::status_starting;
pub use tabs::ActiveTab;
pub use todo::TodoItem;
pub use worker::TickOutcome;
pub use worker::WorkerTask;
pub use worker::WorkerTaskV;
pub use worker::cancel_observed;
pub use worker::cancellation_events;
pub use worker::completion_events;
pub use worker::msg_all_done;
pub use worker::msg_cancel_log;
pub use worker::msg_cancel_reason;
pub use worker::msg_running;
pub use worker::msg_unit_log;
pub use worker::run_events;
pub use worker::step_events;
pub use worker::cancel_view;
pub use worker::lemma_cancelled_run_errors;
pub use worker::lemma_event_views_add;
pub use worker::lemma_progress_monotone;
pub use worker::lemma_run_single_terminal;
pub use worker::simulate_run;
pub use worker::trace_from;
