//! The worker supervisor: owner of at most one active worker task. It hands
//! out the handles a new run needs (`start`), requests cooperative
//! cancellation (`cancel`), and folds the run's event stream into its own
//! state with a non-blocking sweep (`drain`).

use vstd::prelude::*;

use crate::channel::clone_sender;
use crate::channel::event_channel;
use crate::channel::try_recv_event;
use crate::decimal::dec_str;
use crate::decimal::u32_to_decimal;
use crate::event::Event;
use crate::event::EventV;
use crate::logbuf::LogBuffer;
use crate::logbuf::buf_push;
use crate::signal::CancelSignal;
use crate::worker::cancel_observed;
use crate::worker::msg_cancel_reason;
use crate::worker::msg_running;
use crate::worker::run_events;
use crate::worker::step_events;
use crate::worker::trace_from;

verus! {

/// The status line of a supervisor that has not run yet.
pub open spec fn status_idle() -> Seq<char> {
    "Idle"@
}

/// The status line right after a run was started.
pub open spec fn status_starting() -> Seq<char> {
    "Starting..."@
}

/// The status line while units are being processed.
pub open spec fn status_processing(done: nat, total: nat) -> Seq<char> {
    "Processing "@ + dec_str(done) + "/"@ + dec_str(total)
}

/// The status line after a completed run.
pub open spec fn status_complete() -> Seq<char> {
    "Complete"@
}

/// The status line after a failed or cancelled run.
pub open spec fn status_error(reason: Seq<char>) -> Seq<char> {
    "Error: "@ + reason
}

/// The log line recorded when `start` is called while a run is active.
pub open spec fn msg_conflict() -> Seq<char> {
    "Worker already running!"@
}

/// The log line recorded when a run is started.
pub open spec fn msg_starting() -> Seq<char> {
    "Starting worker..."@
}

/// The log line recorded when a cancellation is requested.
pub open spec fn msg_cancelling() -> Seq<char> {
    "Cancelling worker..."@
}

/// The log line recorded when `cancel` finds no run to cancel.
pub open spec fn msg_no_worker() -> Seq<char> {
    "No worker to cancel"@
}

/// The log line recorded when the terminal `Complete` is observed.
pub open spec fn msg_completed() -> Seq<char> {
    "Worker completed successfully!"@
}

/// The log line recorded when a terminal `Error` is observed.
pub open spec fn msg_worker_error(reason: Seq<char>) -> Seq<char> {
    "Worker error: "@ + reason
}

/// Configuration of a supervisor and the runs it hands out.
#[derive(Clone, Copy, Debug)]
pub struct Config {
    /// How many discrete units one run performs.
    pub total_units: u32,
    /// The simulated duration of one unit of work, for runners that sleep.
    pub unit_delay_ms: u64,
    /// How many log lines the bounded log buffer retains.
    pub log_capacity: usize,
    /// How many events the channel buffers before the producer blocks.
    pub channel_capacity: usize,
}

impl Config {
    /// Both buffers hold at least one entry, and the channel stays within
    /// the underlying channel's permit limit, below which it cannot panic.
    pub open spec fn wf(&self) -> bool {
        &&& self.log_capacity >= 1
        &&& self.channel_capacity >= 1
        &&& self.channel_capacity <= usize::MAX / 8
    }
}

impl Default for Config {
    /// 100 units, 50 ms per unit, 100 retained log lines, a channel buffer
    /// of 100 events.
    fn default() -> (c: Config)
        ensures
            c.total_units == 100,
            c.unit_delay_ms == 50,
            c.log_capacity == 100,
            c.channel_capacity == 100,
            c.wf(),
    {
        Config { total_units: 100, unit_delay_ms: 50, log_capacity: 100, channel_capacity: 100 }
    }
}

/// Everything a runner needs to drive one freshly started run: a handle on
/// the run's cancellation flag, the producer end of the event channel, and
/// the run's configuration.
pub struct WorkOrder {
    pub signal: CancelSignal,
    pub sender: tokio::sync::mpsc::Sender<Event>,
    pub total_units: u32,
    pub unit_delay_ms: u64,
}

/// The mathematical shape of a `Supervisor`.
#[verifier::ext_equal]
pub struct SupervisorV {
    pub running: bool,
    pub has_signal: bool,
    pub total_units: nat,
    pub completed_units: nat,
    pub status: Seq<char>,
    pub logs: Seq<Seq<char>>,
    pub log_capacity: nat,
    pub start_ms: Option<u64>,
    pub unit_delay_ms: u64,
    pub channel_capacity: nat,
}

impl SupervisorV {
    /// The supervisor's invariant: the log buffer is bounded, the completed
    /// count never exceeds the unit count, and a cancellation signal is held
    /// exactly while a run is active.
    pub open spec fn wf(&self) -> bool {
        &&& self.log_capacity >= 1
        &&& self.logs.len() <= self.log_capacity
        &&& self.completed_units <= self.total_units
        &&& (self.running <==> self.has_signal)
    }
}

/// How one event changes the supervisor state. A `Progress` event updates the
/// completed count — clamped to the supervisor's own unit count — and the
/// status line; a `Log` event goes to the bounded log buffer; a terminal
/// event ends the run: the running flag falls, the signal is released, and
/// the status and log record the outcome.
pub open spec fn apply_one(s: SupervisorV, e: EventV) -> SupervisorV {
    match e {
        EventV::Progress { done, total: _ } => {
            let clamped = if done <= s.total_units {
                done
            } else {
                s.total_units
            };
            SupervisorV {
                completed_units: clamped,
                status: status_processing(clamped, s.total_units),
                ..s
            }
        },
        EventV::Log(line) => SupervisorV { logs: buf_push(s.logs, s.log_capacity, line), ..s },
        EventV::Complete => SupervisorV {
            running: false,
            has_signal: false,
            status: status_complete(),
            logs: buf_push(s.logs, s.log_capacity, msg_completed()),
            ..s
        },
        EventV::Error(reason) => SupervisorV {
            running: false,
            has_signal: false,
            status: status_error(reason),
            logs: buf_push(s.logs, s.log_capacity, msg_worker_error(reason)),
            ..s
        },
    }
}

/// How a sequence of events, applied in order, changes the supervisor state.
pub open spec fn apply_seq(s: SupervisorV, evs: Seq<EventV>) -> SupervisorV
    decreases evs.len(),
{
    if evs.len() == 0 {
        s
    } else {
        apply_one(apply_seq(s, evs.drop_last()), evs.last())
    }
}

/// Applying one more event continues from the state the earlier events left.
pub proof fn lemma_apply_seq_push(s: SupervisorV, evs: Seq<EventV>, e: EventV)
    ensures
        apply_seq(s, evs.push(e)) == apply_one(apply_seq(s, evs), e),
{
    assert(evs.push(e).drop_last() =~= evs);
}

/// Applying no events leaves the state untouched: a drain that receives
/// nothing is a no-op, so two drains in a row with no intervening worker
/// activity give identical supervisor states.
pub proof fn lemma_apply_no_events(s: SupervisorV)
    ensures
        apply_seq(s, Seq::<EventV>::empty()) == s,
{
}

/// Applying a single event is one step of the fold.
pub proof fn lemma_apply_seq_one(s: SupervisorV, e: EventV)
    ensures
        apply_seq(s, seq![e]) == apply_one(s, e),
{
    assert(seq![e].drop_last() =~= Seq::<EventV>::empty());
    assert(seq![e].last() == e);
    assert(apply_seq(s, Seq::<EventV>::empty()) == s);
    assert(apply_seq(s, seq![e]) == apply_one(apply_seq(s, seq![e].drop_last()), seq![e].last()));
}

/// A sequence of events can be applied in two pieces.
pub proof fn lemma_apply_seq_add(s: SupervisorV, a: Seq<EventV>, b: Seq<EventV>)
    ensures
        apply_seq(s, a + b) == apply_seq(apply_seq(s, a), b),
    decreases b.len(),
{
    if b.len() == 0 {
        assert(a + b =~= a);
    } else {
        lemma_apply_seq_add(s, a, b.drop_last());
        assert((a + b).drop_last() =~= a + b.drop_last());
        assert((a + b).last() == b.last());
    }
}

/// Helper for the run-level laws below: folding the tail of an uncancelled
/// run into a supervisor that has counted `done` of its `total` units leaves
/// it idle, with every unit counted and the completed status.
proof fn lemma_apply_trace_complete(s: SupervisorV, done: nat, total: nat)
    requires
        s.wf(),
        s.total_units == total,
        s.completed_units == done,
        done <= total,
    ensures
        ({
            let r = apply_seq(s, trace_from(done, total, None));
            &&& r.wf()
            &&& r.completed_units == total
            &&& r.total_units == total
            &&& !r.running
            &&& !r.has_signal
            &&& r.status == status_complete()
        }),
    decreases total - done,
{
    let tr = trace_from(done, total, None);
    if done >= total {
        let s1 = apply_one(s, tr[0]);
        assert(tr =~= seq![tr[0]] + seq![tr[1]]);
        lemma_apply_seq_add(s, seq![tr[0]], seq![tr[1]]);
        lemma_apply_seq_one(s, tr[0]);
        lemma_apply_seq_one(s1, tr[1]);
    } else {
        let head = step_events(done + 1, total);
        let tail = trace_from(done + 1, total, None);
        assert(tr =~= head + tail);
        lemma_apply_seq_add(s, head, tail);
        let s1 = apply_seq(s, head);
        if (done + 1) % 10 == 0 {
            assert(head =~= seq![head[0]] + seq![head[1]]);
            lemma_apply_seq_add(s, seq![head[0]], seq![head[1]]);
            lemma_apply_seq_one(s, head[0]);
            lemma_apply_seq_one(apply_one(s, head[0]), head[1]);
            assert(s1 == apply_one(apply_one(s, head[0]), head[1]));
        } else {
            assert(head =~= seq![head[0]]);
            lemma_apply_seq_one(s, head[0]);
            assert(s1 == apply_one(s, head[0]));
        }
        assert(s1.completed_units == done + 1);
        lemma_apply_trace_complete(s1, done + 1, total);
    }
}

/// A full, uncancelled run, folded into the supervisor that started it,
/// counts exactly the run's unit total — no unit is counted twice — and
/// leaves the supervisor idle with the completed status. Together with
/// `start`, which hands out nothing while a run is active, no second task
/// can ever inflate the count.
pub proof fn lemma_full_run_counts_exactly(s: SupervisorV, total: nat)
    requires
        s.wf(),
        s.total_units == total,
        s.completed_units == 0,
    ensures
        ({
            let r = apply_seq(s, run_events(total, None));
            &&& r.wf()
            &&& r.completed_units == total
            &&& r.total_units == total
            &&& !r.running
            &&& !r.has_signal
            &&& r.status == status_complete()
        }),
{
    let opening = EventV::Log(msg_running());
    assert(run_events(total, None) =~= seq![opening] + trace_from(0, total, None));
    lemma_apply_seq_add(s, seq![opening], trace_from(0, total, None));
    lemma_apply_seq_one(s, opening);
    let s1 = apply_one(s, opening);
    lemma_apply_trace_complete(s1, 0, total);
}

/// Helper for the cancelled-run law below.
proof fn lemma_apply_trace_cancelled(s: SupervisorV, done: nat, total: nat, c: nat)
    requires
        s.wf(),
        s.total_units == total,
        s.completed_units == done,
        done <= c,
        c < total,
    ensures
        ({
            let r = apply_seq(s, trace_from(done, total, Some(c)));
            &&& r.wf()
            &&& r.completed_units == c
            &&& r.total_units == total
            &&& !r.running
            &&& !r.has_signal
            &&& r.status == status_error(msg_cancel_reason())
        }),
    decreases total - done,
{
    let tr = trace_from(done, total, Some(c));
    if cancel_observed(done, Some(c)) {
        let s1 = apply_one(s, tr[0]);
        assert(tr =~= seq![tr[0]] + seq![tr[1]]);
        lemma_apply_seq_add(s, seq![tr[0]], seq![tr[1]]);
        lemma_apply_seq_one(s, tr[0]);
        lemma_apply_seq_one(s1, tr[1]);
    } else {
        let head = step_events(done + 1, total);
        let tail = trace_from(done + 1, total, Some(c));
        assert(tr =~= head + tail);
        lemma_apply_seq_add(s, head, tail);
        let s1 = apply_seq(s, head);
        if (done + 1) % 10 == 0 {
            assert(head =~= seq![head[0]] + seq![head[1]]);
            lemma_apply_seq_add(s, seq![head[0]], seq![head[1]]);
            lemma_apply_seq_one(s, head[0]);
            lemma_apply_seq_one(apply_one(s, head[0]), head[1]);
            assert(s1 == apply_one(apply_one(s, head[0]), head[1]));
        } else {
            assert(head =~= seq![head[0]]);
            lemma_apply_seq_one(s, head[0]);
            assert(s1 == apply_one(s, head[0]));
        }
        assert(s1.completed_units == done + 1);
        lemma_apply_trace_cancelled(s1, done + 1, total, c);
    }
}

/// A run whose cancellation is observed after `c` of its units, folded into
/// the supervisor that started it, leaves the supervisor idle with exactly
/// those `c` units counted — no progress is recorded past the cancellation —
/// and the cancellation error as its status, never the completed one.
pub proof fn lemma_cancelled_run_reports_error(s: SupervisorV, total: nat, c: nat)
    requires
        s.wf(),
        s.total_units == total,
        s.completed_units == 0,
        c < total,
    ensures
        ({
            let r = apply_seq(s, run_events(total, Some(c)));
            &&& r.wf()
            &&& r.completed_units == c
            &&& !r.running
            &&& !r.has_signal
            &&& r.status == status_error(msg_cancel_reason())
        }),
{
    let opening = EventV::Log(msg_running());
    assert(run_events(total, Some(c)) =~= seq![opening] + trace_from(0, total, Some(c)));
    lemma_apply_seq_add(s, seq![opening], trace_from(0, total, Some(c)));
    lemma_apply_seq_one(s, opening);
    let s1 = apply_one(s, opening);
    lemma_apply_trace_cancelled(s1, 0, total, c);
}

/// The supervisor: single owner of the consumer side of the event channel
/// and of at most one active run's cancellation signal.
pub struct Supervisor {
    running: bool,
    signal: Option<CancelSignal>,
    total_units: u32,
    completed_units: u32,
    status: String,
    logs: LogBuffer,
    start_ms: Option<u64>,
    unit_delay_ms: u64,
    channel_capacity: usize,
    tx: tokio::sync::mpsc::Sender<Event>,
    rx: tokio::sync::mpsc::Receiver<Event>,
}

impl View for Supervisor {
    type V = SupervisorV;

    closed spec fn view(&self) -> SupervisorV {
        SupervisorV {
            running: self.running,
            has_signal: self.signal is Some,
            total_units: self.total_units as nat,
            completed_units: self.completed_units as nat,
            status: self.status@,
            logs: self.logs@.entries,
            log_capacity: self.logs@.capacity,
            start_ms: self.start_ms,
            unit_delay_ms: self.unit_delay_ms,
            channel_capacity: self.channel_capacity as nat,
        }
    }
}

/// Milliseconds elapsed between the recorded start and `now_ms`: zero when no
/// run was ever started, and zero when the clock reads earlier than the
/// start.
pub open spec fn spec_elapsed_ms(s: SupervisorV, now_ms: u64) -> nat {
    match s.start_ms {
        None => 0,
        Some(st) => if now_ms >= st {
            (now_ms - st) as nat
        } else {
            0
        },
    }
}

/// Whole units completed per second since the recorded start; zero when no
/// time has elapsed, so nothing divides by zero.
pub open spec fn spec_throughput(s: SupervisorV, now_ms: u64) -> nat {
    let e = spec_elapsed_ms(s, now_ms);
    if e == 0 {
        0
    } else {
        (s.completed_units * 1000) / e
    }
}

impl Supervisor {
    pub open spec fn wf(&self) -> bool {
        self@.wf()
    }

    /// A fresh, idle supervisor with an empty event channel of the configured
    /// capacity.
    pub fn new(cfg: Config) -> (s: Supervisor)
        requires
            cfg.wf(),
        ensures
            s.wf(),
            !s@.running,
            !s@.has_signal,
            s@.total_units == cfg.total_units,
            s@.completed_units == 0,
            s@.status == status_idle(),
            s@.logs =~= Seq::<Seq<char>>::empty(),
            s@.log_capacity == cfg.log_capacity,
            s@.start_ms is None,
            s@.unit_delay_ms == cfg.unit_delay_ms,
            s@.channel_capacity == cfg.channel_capacity,
    {
        let (tx, rx) = event_channel(cfg.channel_capacity);
        Supervisor {
            running: false,
            signal: None,
            total_units: cfg.total_units,
            completed_units: 0,
            status: String::from_str("Idle"),
            logs: LogBuffer::new(cfg.log_capacity),
            start_ms: None,
            unit_delay_ms: cfg.unit_delay_ms,
            channel_capacity: cfg.channel_capacity,
            tx,
            rx,
        }
    }

    /// Appends a line to the bounded log buffer.
    pub fn log(&mut self, line: String)
        requires
            old(self).wf(),
        ensures
            final(self).wf(),
            final(self)@ =~= (SupervisorV {
                logs: buf_push(old(self)@.logs, old(self)@.log_capacity, line@),
                ..old(self)@
            }),
    {
        self.logs.push(line);
    }

    /// Starts a run, unless one is already active. An active run makes this a
    /// logged no-op that hands out nothing, so a second concurrent task can
    /// never be spawned. Otherwise the counters are reset, a fresh
    /// cancellation signal is allocated, and the handles for exactly one new
    /// run are handed out; `now_ms` is recorded as the start time.
    pub fn start(&mut self, now_ms: u64) -> (r: Option<WorkOrder>)
        requires
            old(self).wf(),
        ensures
            final(self).wf(),
            old(self)@.running ==> r is None && final(self)@ =~= (SupervisorV {
                logs: buf_push(old(self)@.logs, old(self)@.log_capacity, msg_conflict()),
                ..old(self)@
            }),
            !old(self)@.running ==> ({
                &&& r matches Some(w) && w.total_units == old(self)@.total_units
                    && w.unit_delay_ms == old(self)@.unit_delay_ms
                &&& final(self)@ =~= (SupervisorV {
                    running: true,
                    has_signal: true,
                    completed_units: 0,
                    status: status_starting(),
                    logs: buf_push(old(self)@.logs, old(self)@.log_capacity, msg_starting()),
                    start_ms: Some(now_ms),
                    ..old(self)@
                })
            }),
    {
        if self.running {
            self.logs.push(String::from_str("Worker already running!"));
            None
        } else {
            self.completed_units = 0;
            self.running = true;
            self.start_ms = Some(now_ms);
            self.status = String::from_str("Starting...");
            let sig = CancelSignal::new();
            let dup = sig.duplicate();
            self.signal = Some(sig);
            self.logs.push(String::from_str("Starting worker..."));
            Some(
                WorkOrder {
                    signal: dup,
                    sender: clone_sender(&self.tx),
                    total_units: self.total_units,
                    unit_delay_ms: self.unit_delay_ms,
                },
            )
        }
    }

    /// Requests cancellation of the active run by setting the shared signal;
    /// the run's terminal `Error` then arrives through the channel on a later
    /// drain. With no active run this is a logged no-op, never an error;
    /// repeated calls only set the already-set flag again.
    pub fn cancel(&mut self)
        requires
            old(self).wf(),
        ensures
            final(self).wf(),
            old(self)@.running ==> final(self)@ =~= (SupervisorV {
                logs: buf_push(old(self)@.logs, old(self)@.log_capacity, msg_cancelling()),
                ..old(self)@
            }),
            !old(self)@.running ==> final(self)@ =~= (SupervisorV {
                logs: buf_push(old(self)@.logs, old(self)@.log_capacity, msg_no_worker()),
                ..old(self)@
            }),
    {
        match &self.signal {
            Some(sig) => {
                sig.cancel();
                self.logs.push(String::from_str("Cancelling worker..."));
            },
            None => {
                self.logs.push(String::from_str("No worker to cancel"));
            },
        }
    }

    /// Applies one received event to the supervisor state, exactly as
    /// `apply_one` says.
    pub fn apply_event(&mut self, e: Event)
        requires
            old(self).wf(),
        ensures
            final(self).wf(),
            final(self)@ =~= apply_one(old(self)@, e@),
    {
        match e {
            Event::Progress { done, total: _ } => {
                let clamped = if done <= self.total_units {
                    done
                } else {
                    self.total_units
                };
                self.completed_units = clamped;
                let mut st = String::from_str("Processing ");
                st.append(u32_to_decimal(clamped).as_str());
                st.append("/");
                st.append(u32_to_decimal(self.total_units).as_str());
                self.status = st;
            },
            Event::Log(line) => {
                self.logs.push(line);
            },
            Event::Complete => {
                self.running = false;
                self.signal = None;
                self.status = String::from_str("Complete");
                self.logs.push(String::from_str("Worker completed successfully!"));
            },
            Event::Error(reason) => {
                self.running = false;
                self.signal = None;
                let mut st = String::from_str("Error: ");
                st.append(reason.as_str());
                self.status = st;
                let mut line = String::from_str("Worker error: ");
                line.append(reason.as_str());
                self.logs.push(line);
            },
        }
    }

    /// One non-blocking sweep: receives queued events and applies each in
    /// arrival order, never waiting on an empty channel. The state afterwards
    /// is the old state with the received sequence applied; receiving nothing
    /// applies the empty sequence, which changes nothing. One sweep applies
    /// at most `channel_capacity` events, so a tick of the consumer's loop is
    /// never starved by a fast producer; anything left stays queued for the
    /// next sweep.
    pub fn drain(&mut self)
        requires
            old(self).wf(),
        ensures
            final(self).wf(),
            exists|evs: Seq<EventV>| final(self)@ == apply_seq(old(self)@, evs),
    {
        let ghost mut applied: Seq<EventV> = Seq::empty();
        let mut budget: usize = self.channel_capacity;
        while budget > 0
            invariant
                self.wf(),
                self@ == apply_seq(old(self)@, applied),
            decreases budget,
        {
            match try_recv_event(&mut self.rx) {
                Some(e) => {
                    let ghost ev = e@;
                    let ghost before = applied;
                    self.apply_event(e);
                    proof {
                        lemma_apply_seq_push(old(self)@, before, ev);
                        applied = before.push(ev);
                    }
                    budget = budget - 1;
                },
                None => {
                    break ;
                },
            }
        }
        proof {
            assert(final(self)@ == apply_seq(old(self)@, applied));
        }
    }

    /// Milliseconds since the recorded start; zero when never started.
    pub fn elapsed_ms(&self, now_ms: u64) -> (r: u64)
        ensures
            r == spec_elapsed_ms(self@, now_ms),
    {
        match self.start_ms {
            None => 0,
            Some(st) => if now_ms >= st {
                now_ms - st
            } else {
                0
            },
        }
    }

    /// Whole units completed per second since the recorded start; zero when
    /// no time has elapsed.
    pub fn throughput_units_per_sec(&self, now_ms: u64) -> (r: u64)
        ensures
            r == spec_throughput(self@, now_ms),
    {
        let e = self.elapsed_ms(now_ms);
        if e == 0 {
            0
        } else {
            (self.completed_units as u64) * 1000 / e
        }
    }

    pub fn is_running(&self) -> (r: bool)
        ensures
            r == self@.running,
    {
        self.running
    }

    pub fn completed_units(&self) -> (r: u32)
        ensures
            r == self@.completed_units,
    {
        self.completed_units
    }

    pub fn total_units(&self) -> (r: u32)
        ensures
            r == self@.total_units,
    {
        self.total_units
    }

    /// The current status line.
    pub fn status(&self) -> (r: &String)
        ensures
            r@ == self@.status,
    {
        &self.status
    }

    /// The retained log lines, oldest first.
    pub fn logs(&self) -> (r: &Vec<String>)
        ensures
            r@.map_values(|s: String| s@) == self@.logs,
    {
        self.logs.entries()
    }

    pub fn log_capacity(&self) -> (r: usize)
        ensures
            r == self@.log_capacity,
    {
        self.logs.capacity()
    }

    pub fn unit_delay_ms(&self) -> (r: u64)
        ensures
            r == self@.unit_delay_ms,
    {
        self.unit_delay_ms
    }
}

} // verus!
