//! The worker task: a run of `total` discrete units of work, polled
//! cooperatively. Before each unit the task checks the cancellation flag;
//! after each unit it emits a `Progress` event (and every tenth unit a
//! summary `Log`); when every unit is done it emits a final summary `Log`
//! followed by `Complete`. A run ends with exactly one terminal event.
//!
//! The task itself decides nothing about scheduling: the caller that runs it
//! performs the actual unit of work and the sends, and hands the outcomes
//! back, so every decision here is verified for every outcome.

use vstd::prelude::*;

use crate::decimal::dec_str;
use crate::decimal::u32_to_decimal;
use crate::event::Event;
use crate::event::EventV;
use crate::event::event_views;
use crate::event::is_terminal;

verus! {

/// The opening log line of every run.
pub open spec fn msg_running() -> Seq<char> {
    "Worker: Running"@
}

/// The log line emitted when a cancellation is observed.
pub open spec fn msg_cancel_log() -> Seq<char> {
    "cancelled"@
}

/// The reason carried by the terminal `Error` of a cancelled run.
pub open spec fn msg_cancel_reason() -> Seq<char> {
    "cancelled by user"@
}

/// The summary log line emitted after every tenth unit.
pub open spec fn msg_unit_log(done: nat, total: nat) -> Seq<char> {
    "Processed "@ + dec_str(done) + "/"@ + dec_str(total) + " units"@
}

/// The final summary log line of a run that finished all its units.
pub open spec fn msg_all_done() -> Seq<char> {
    "All units processed successfully!"@
}

/// The events emitted right after the `new_done`-th unit of work succeeds.
pub open spec fn step_events(new_done: nat, total: nat) -> Seq<EventV> {
    if new_done % 10 == 0 {
        seq![
            EventV::Progress { done: new_done, total },
            EventV::Log(msg_unit_log(new_done, total)),
        ]
    } else {
        seq![EventV::Progress { done: new_done, total }]
    }
}

/// The events that close a run whose units all completed.
pub open spec fn completion_events() -> Seq<EventV> {
    seq![EventV::Log(msg_all_done()), EventV::Complete]
}

/// The events that close a run stopped by cancellation.
pub open spec fn cancellation_events() -> Seq<EventV> {
    seq![EventV::Log(msg_cancel_log()), EventV::Error(msg_cancel_reason())]
}

/// Whether the cancellation flag reads as set at the check made with `done`
/// units finished, when the flag is first set before the check made with
/// `cancel_at` units finished (`None`: it is never set).
pub open spec fn cancel_observed(done: nat, cancel_at: Option<nat>) -> bool {
    cancel_at matches Some(c) && done >= c
}

/// The events a run emits after its first `done` units, given where the
/// cancellation flag is first observed.
pub open spec fn trace_from(done: nat, total: nat, cancel_at: Option<nat>) -> Seq<EventV>
    decreases total - done,
{
    if done >= total {
        completion_events()
    } else if cancel_observed(done, cancel_at) {
        cancellation_events()
    } else {
        step_events(done + 1, total) + trace_from(done + 1, total, cancel_at)
    }
}

/// The whole event sequence of one run.
pub open spec fn run_events(total: nat, cancel_at: Option<nat>) -> Seq<EventV> {
    seq![EventV::Log(msg_running())] + trace_from(0, total, cancel_at)
}

/// What one poll of the task asks its runner to do next.
pub enum TickOutcome {
    /// The run is over: emit these events and stop.
    Halt(Vec<Event>),
    /// Perform one unit of work, then report back.
    Work,
}

/// The state of one run between two polls.
pub struct WorkerTask {
    total: u32,
    done: u32,
    finished: bool,
}

/// The mathematical shape of a `WorkerTask`.
pub struct WorkerTaskV {
    pub total: nat,
    pub done: nat,
    pub finished: bool,
}

impl View for WorkerTask {
    type V = WorkerTaskV;

    closed spec fn view(&self) -> WorkerTaskV {
        WorkerTaskV { total: self.total as nat, done: self.done as nat, finished: self.finished }
    }
}

impl WorkerTask {
    /// The unit counter never runs past the goal.
    pub open spec fn wf(&self) -> bool {
        self@.done <= self@.total
    }

    pub fn new(total: u32) -> (t: WorkerTask)
        ensures
            t.wf(),
            t@.total == total,
            t@.done == 0,
            !t@.finished,
    {
        WorkerTask { total, done: 0, finished: false }
    }

    /// The log event every run opens with, to be emitted before the first
    /// poll.
    pub fn opening_event(&self) -> (e: Event)
        ensures
            e@ == EventV::Log(msg_running()),
    {
        Event::Log(String::from_str("Worker: Running"))
    }

    pub fn is_finished(&self) -> (r: bool)
        ensures
            r == self@.finished,
    {
        self.finished
    }

    pub fn done_units(&self) -> (r: u32)
        ensures
            r == self@.done,
    {
        self.done
    }

    pub fn total_units(&self) -> (r: u32)
        ensures
            r == self@.total,
    {
        self.total
    }

    /// One poll of the cooperative loop. With units left and no cancellation
    /// observed, the runner is asked to perform one unit of work; an observed
    /// cancellation closes the run with a cancellation log and an `Error`;
    /// when every unit is already done the run closes with the final summary
    /// log and `Complete`. The completion check comes first, as a run that
    /// has finished its last unit completes even if a cancellation arrives
    /// at that moment.
    pub fn on_tick(&mut self, cancelled: bool) -> (r: TickOutcome)
        requires
            old(self).wf(),
            !old(self)@.finished,
        ensures
            final(self).wf(),
            final(self)@.total == old(self)@.total,
            final(self)@.done == old(self)@.done,
            ({
                let d = old(self)@.done;
                let t = old(self)@.total;
                if d == t {
                    &&& final(self)@.finished
                    &&& r matches TickOutcome::Halt(evs) && event_views(evs@)
                        =~= completion_events()
                } else if cancelled {
                    &&& final(self)@.finished
                    &&& r matches TickOutcome::Halt(evs) && event_views(evs@)
                        =~= cancellation_events()
                } else {
                    &&& !final(self)@.finished
                    &&& r is Work
                }
            }),
    {
        if self.done == self.total {
            self.finished = true;
            let mut evs: Vec<Event> = Vec::new();
            evs.push(Event::Log(String::from_str("All units processed successfully!")));
            evs.push(Event::Complete);
            TickOutcome::Halt(evs)
        } else if cancelled {
            self.finished = true;
            let mut evs: Vec<Event> = Vec::new();
            evs.push(Event::Log(String::from_str("cancelled")));
            evs.push(Event::Error(String::from_str("cancelled by user")));
            TickOutcome::Halt(evs)
        } else {
            TickOutcome::Work
        }
    }

    /// Report that one unit of work succeeded: counts it and hands back the
    /// events to emit for it.
    pub fn work_succeeded(&mut self) -> (evs: Vec<Event>)
        requires
            old(self).wf(),
            !old(self)@.finished,
            old(self)@.done < old(self)@.total,
        ensures
            final(self).wf(),
            !final(self)@.finished,
            final(self)@.total == old(self)@.total,
            final(self)@.done == old(self)@.done + 1,
            event_views(evs@) =~= step_events(old(self)@.done + 1, old(self)@.total),
    {
        self.done = self.done + 1;
        let mut evs: Vec<Event> = Vec::new();
        evs.push(Event::Progress { done: self.done, total: self.total });
        if self.done % 10 == 0 {
            let mut line = String::from_str("Processed ");
            line.append(u32_to_decimal(self.done).as_str());
            line.append("/");
            line.append(u32_to_decimal(self.total).as_str());
            line.append(" units");
            evs.push(Event::Log(line));
        }
        evs
    }

    /// Report that the unit of work itself failed: the failure is converted
    /// into a terminal `Error` event carrying the cause, and the run is over.
    pub fn work_failed(&mut self, reason: String) -> (evs: Vec<Event>)
        requires
            old(self).wf(),
            !old(self)@.finished,
        ensures
            final(self).wf(),
            final(self)@.finished,
            final(self)@.total == old(self)@.total,
            final(self)@.done == old(self)@.done,
            event_views(evs@) =~= seq![EventV::Error(reason@)],
    {
        self.finished = true;
        let mut evs: Vec<Event> = Vec::new();
        evs.push(Event::Error(reason));
        evs
    }
}

/// Taking views distributes over concatenation of event sequences.
pub proof fn lemma_event_views_add(a: Seq<Event>, b: Seq<Event>)
    ensures
        event_views(a + b) =~= event_views(a) + event_views(b),
{
}

/// The spec-level cancellation point of an exec `Option<u32>`.
pub open spec fn cancel_view(c: Option<u32>) -> Option<nat> {
    match c {
        Some(k) => Some(k as nat),
        None => None,
    }
}

/// Runs one whole task deterministically: the unit of work is replaced by a
/// no-op, and the cancellation flag first reads as set at the check made with
/// `cancel_at` units finished (`None`: it never reads as set). Returns
/// exactly the run's event sequence.
pub fn simulate_run(total: u32, cancel_at: Option<u32>) -> (evs: Vec<Event>)
    ensures
        event_views(evs@) =~= run_events(total as nat, cancel_view(cancel_at)),
{
    let ghost ca = cancel_view(cancel_at);
    let ghost t = total as nat;
    let mut task = WorkerTask::new(total);
    let mut out: Vec<Event> = Vec::new();
    out.push(task.opening_event());
    proof {
        assert(event_views(out@) =~= seq![EventV::Log(msg_running())]);
    }
    while !task.is_finished()
        invariant
            task.wf(),
            task@.total == t,
            t == total as nat,
            ca == cancel_view(cancel_at),
            !task@.finished ==> event_views(out@) + trace_from(task@.done, t, ca) =~= run_events(
                t,
                ca,
            ),
            task@.finished ==> event_views(out@) =~= run_events(t, ca),
        decreases total as int - task@.done as int, (if task@.finished {
            0int
        } else {
            1int
        }),
    {
        let cancelled = match cancel_at {
            Some(c) => task.done_units() >= c,
            None => false,
        };
        proof {
            assert(cancelled == cancel_observed(task@.done, ca));
        }
        let ghost pre_out = out@;
        let ghost d = task@.done;
        match task.on_tick(cancelled) {
            TickOutcome::Halt(mut halt_evs) => {
                let ghost added = halt_evs@;
                out.append(&mut halt_evs);
                proof {
                    lemma_event_views_add(pre_out, added);
                    if d == t {
                        assert(trace_from(d, t, ca) =~= completion_events());
                    } else {
                        assert(trace_from(d, t, ca) =~= cancellation_events());
                    }
                    assert(event_views(out@) =~= run_events(t, ca));
                }
            },
            TickOutcome::Work => {
                let mut work_evs = task.work_succeeded();
                let ghost added = work_evs@;
                out.append(&mut work_evs);
                proof {
                    lemma_event_views_add(pre_out, added);
                    assert(trace_from(d, t, ca) =~= step_events(d + 1, t) + trace_from(
                        d + 1,
                        t,
                        ca,
                    ));
                    assert(event_views(out@) + trace_from(d + 1, t, ca) =~= run_events(t, ca));
                }
            },
        }
    }
    out
}

/// Helper for the run-level laws: the shape of the tail of a run.
proof fn lemma_trace_terminal(done: nat, total: nat, cancel_at: Option<nat>)
    requires
        done <= total,
    ensures
        ({
            let tr = trace_from(done, total, cancel_at);
            &&& tr.len() >= 1
            &&& is_terminal(tr.last())
            &&& forall|i: int| 0 <= i < tr.len() - 1 ==> !is_terminal(#[trigger] tr[i])
        }),
    decreases total - done,
{
    let tr = trace_from(done, total, cancel_at);
    if done >= total {
        assert(tr =~= completion_events());
    } else if cancel_observed(done, cancel_at) {
        assert(tr =~= cancellation_events());
    } else {
        let head = step_events(done + 1, total);
        let tail = trace_from(done + 1, total, cancel_at);
        lemma_trace_terminal(done + 1, total, cancel_at);
        assert(tr =~= head + tail);
        assert forall|i: int| 0 <= i < tr.len() - 1 implies !is_terminal(#[trigger] tr[i]) by {
            if i < head.len() {
                assert(tr[i] == head[i]);
            } else {
                assert(tr[i] == tail[i - head.len()]);
            }
        }
        assert(tr.last() == tail.last());
    }
}

/// Every run emits exactly one terminal event — `Complete` or `Error` — and
/// it is the last event of the run.
pub proof fn lemma_run_single_terminal(total: nat, cancel_at: Option<nat>)
    ensures
        ({
            let r = run_events(total, cancel_at);
            &&& r.len() >= 2
            &&& is_terminal(r.last())
            &&& forall|i: int| 0 <= i < r.len() - 1 ==> !is_terminal(#[trigger] r[i])
        }),
{
    let r = run_events(total, cancel_at);
    let tr = trace_from(0, total, cancel_at);
    lemma_trace_terminal(0, total, cancel_at);
    assert(r.last() == tr.last());
    assert forall|i: int| 0 <= i < r.len() - 1 implies !is_terminal(#[trigger] r[i]) by {
        if i >= 1 {
            assert(r[i] == tr[i - 1]);
        }
    }
}

/// Helper: the tail of a run whose cancellation is observed before the units
/// run out.
proof fn lemma_trace_cancelled(done: nat, total: nat, c: nat)
    requires
        done <= c,
        c < total,
    ensures
        ({
            let tr = trace_from(done, total, Some(c));
            &&& tr.len() >= 1
            &&& tr.last() == EventV::Error(msg_cancel_reason())
            &&& forall|i: int| 0 <= i < tr.len() ==> !((#[trigger] tr[i]) is Complete)
        }),
    decreases total - done,
{
    let tr = trace_from(done, total, Some(c));
    if cancel_observed(done, Some(c)) {
        assert(tr =~= cancellation_events());
    } else {
        let head = step_events(done + 1, total);
        let tail = trace_from(done + 1, total, Some(c));
        lemma_trace_cancelled(done + 1, total, c);
        assert(tr =~= head + tail);
        assert forall|i: int| 0 <= i < tr.len() implies !((#[trigger] tr[i]) is Complete) by {
            if i < head.len() {
                assert(tr[i] == head[i]);
            } else {
                assert(tr[i] == tail[i - head.len()]);
            }
        }
        assert(tr.last() == tail.last());
    }
}

/// A cancellation observed while units remain ends the run with the
/// cancellation `Error`; such a run never emits `Complete`. (A cancellation
/// requested only after the last unit of work no longer stops the run, which
/// completes normally; hence the bound on the observation point.)
pub proof fn lemma_cancelled_run_errors(total: nat, c: nat)
    requires
        c < total,
    ensures
        ({
            let r = run_events(total, Some(c));
            &&& r.len() >= 1
            &&& r.last() == EventV::Error(msg_cancel_reason())
            &&& forall|i: int| 0 <= i < r.len() ==> !((#[trigger] r[i]) is Complete)
        }),
{
    let r = run_events(total, Some(c));
    let tr = trace_from(0, total, Some(c));
    lemma_trace_cancelled(0, total, c);
    assert(r.last() == tr.last());
    assert forall|i: int| 0 <= i < r.len() implies !((#[trigger] r[i]) is Complete) by {
        if i >= 1 {
            assert(r[i] == tr[i - 1]);
        }
    }
}

/// Helper: the progress events in the tail of a run.
proof fn lemma_trace_progress(done: nat, total: nat, cancel_at: Option<nat>)
    requires
        done <= total,
    ensures
        ({
            let tr = trace_from(done, total, cancel_at);
            &&& forall|i: int|
                0 <= i < tr.len() && (#[trigger] tr[i]) is Progress ==> done < tr[i]->Progress_done
                    <= total && tr[i]->Progress_total == total
            &&& forall|i: int, j: int|
                0 <= i < j < tr.len() && (#[trigger] tr[i]) is Progress && (#[trigger] tr[j])
                    is Progress ==> tr[i]->Progress_done < tr[j]->Progress_done
            &&& cancel_at is None && done < total ==> exists|i: int|
                0 <= i < tr.len() && #[trigger] tr[i] == (EventV::Progress { done: total, total })
        }),
    decreases total - done,
{
    let tr = trace_from(done, total, cancel_at);
    if done >= total {
        assert(tr =~= completion_events());
    } else if cancel_observed(done, cancel_at) {
        assert(tr =~= cancellation_events());
    } else {
        let head = step_events(done + 1, total);
        let tail = trace_from(done + 1, total, cancel_at);
        lemma_trace_progress(done + 1, total, cancel_at);
        assert(tr =~= head + tail);
        assert(head[0] == (EventV::Progress { done: (done + 1) as nat, total }));
        assert forall|i: int|
            0 <= i < tr.len() && (#[trigger] tr[i]) is Progress implies done < tr[i]->Progress_done
            <= total && tr[i]->Progress_total == total by {
            if i < head.len() {
                assert(tr[i] == head[i]);
            } else {
                assert(tr[i] == tail[i - head.len()]);
            }
        }
        assert forall|i: int, j: int|
            0 <= i < j < tr.len() && (#[trigger] tr[i]) is Progress && (#[trigger] tr[j])
                is Progress implies tr[i]->Progress_done < tr[j]->Progress_done by {
            if j < head.len() {
                assert(tr[i] == head[i]);
                assert(tr[j] == head[j]);
            } else if i < head.len() {
                assert(tr[i] == head[i]);
                assert(tr[j] == tail[j - head.len()]);
            } else {
                assert(tr[i] == tail[i - head.len()]);
                assert(tr[j] == tail[j - head.len()]);
            }
        }
        if cancel_at is None {
            if done + 1 == total {
                assert(tr[0] == (EventV::Progress { done: total, total }));
            } else {
                let w = choose|i: int|
                    0 <= i < tail.len() && #[trigger] tail[i] == (EventV::Progress {
                        done: total,
                        total,
                    });
                assert(tr[w + head.len()] == tail[w]);
            }
        }
    }
}

/// Progress within one run is strictly increasing — so the fractions a
/// consumer observes never decrease — every `Progress` event reports at most
/// the run's own unit count, and an uncancelled run with at least one unit
/// ends its progress at `total` of `total` units (fraction one), with no
/// further `Progress` event after that.
pub proof fn lemma_progress_monotone(total: nat, cancel_at: Option<nat>)
    ensures
        ({
            let r = run_events(total, cancel_at);
            &&& forall|i: int|
                0 <= i < r.len() && (#[trigger] r[i]) is Progress ==> 1 <= r[i]->Progress_done
                    <= total && r[i]->Progress_total == total
            &&& forall|i: int, j: int|
                0 <= i < j < r.len() && (#[trigger] r[i]) is Progress && (#[trigger] r[j])
                    is Progress ==> r[i]->Progress_done < r[j]->Progress_done
            &&& cancel_at is None && total > 0 ==> exists|i: int|
                0 <= i < r.len() && #[trigger] r[i] == (EventV::Progress { done: total, total })
            &&& forall|i: int, j: int|
                0 <= i < j < r.len() && #[trigger] r[i] == (EventV::Progress {
                    done: total,
                    total,
                }) ==> !((#[trigger] r[j]) is Progress)
        }),
{
    let r = run_events(total, cancel_at);
    let tr = trace_from(0, total, cancel_at);
    lemma_trace_progress(0, total, cancel_at);
    assert forall|i: int| 0 <= i < r.len() && (#[trigger] r[i]) is Progress implies 1
        <= r[i]->Progress_done <= total && r[i]->Progress_total == total by {
        assert(i >= 1);
        assert(r[i] == tr[i - 1]);
    }
    assert forall|i: int, j: int|
        0 <= i < j < r.len() && (#[trigger] r[i]) is Progress && (#[trigger] r[j])
            is Progress implies r[i]->Progress_done < r[j]->Progress_done by {
        assert(r[i] == tr[i - 1]);
        assert(r[j] == tr[j - 1]);
    }
    if cancel_at is None && total > 0 {
        let w = choose|i: int|
            0 <= i < tr.len() && #[trigger] tr[i] == (EventV::Progress { done: total, total });
        assert(r[w + 1] == tr[w]);
    }
    assert forall|i: int, j: int|
        0 <= i < j < r.len() && #[trigger] r[i] == (EventV::Progress {
            done: total,
            total,
        }) implies !((#[trigger] r[j]) is Progress) by {
        if r[j] is Progress {
            assert(r[i] == tr[i - 1]);
            assert(r[j] == tr[j - 1]);
        }
    }
}

} // verus!
