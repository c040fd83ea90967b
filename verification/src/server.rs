//! The daemon control loop's decision core.
//!
//! The daemon's event loop waits on four signal sources — shutdown notice,
//! accepted control connection, flush timer, focus event — and runs one
//! branch to completion before waiting again.  The waiting, the socket
//! reads and writes, and the store calls are the surrounding process's
//! work; every decision those branches make lives here, as one method per
//! branch on [`Server`].  The loop feeds each ready source to its method
//! and performs the persistence or reply the method hands back.
//!
//! Lifecycle: a new server is `Running`; a stop request or a termination
//! signal moves it to `Draining`; the final drain moves it to `Stopped`,
//! after which the process exits.

use vstd::prelude::*;

use crate::buffer::FLUSH_THRESHOLD;
use crate::buffer::RecordBuffer;
use crate::protocol::MSG_PING;
use crate::protocol::MSG_SAVE;
use crate::protocol::MSG_STOP;
use crate::protocol::Message;
use crate::protocol::RESPONSE_FAILED;
use crate::protocol::RESPONSE_SUCCESS;
use crate::protocol::RESPONSE_UNKNOWN_MESSAGE;
use crate::records::Window;
use crate::tracker::FocusEvent;
use crate::tracker::PendingWindow;
use crate::tracker::spec_emitted;
use crate::tracker::spec_transition;

verus! {

/// Where the daemon stands in its life.
#[derive(Clone, Copy, Debug, PartialEq, Eq, Structural)]
pub enum Phase {
    /// Steady state: handling events, requests and timer ticks.
    Running,
    /// Shutdown was requested; the final drain has not run yet.
    Draining,
    /// Terminal: drained and done, the process may exit.
    Stopped,
}

/// What the loop must do with the connection after handing a control
/// request to the server.
#[derive(Debug)]
pub enum ControlOutcome {
    /// Write this response byte back and close the connection.
    Reply {
        /// The response code to write.
        response: u8,
    },
    /// Persist this batch, report the result through
    /// [`Server::on_persist_outcome`], and write the byte that returns.
    PersistThenReply {
        /// Every record completed before the request was read.
        batch: Vec<Window>,
    },
}

/// The daemon's whole mutable state: the record buffer, the pending
/// window, and the lifecycle phase.  Owned exclusively by the single
/// control loop, so no lock guards it.
#[derive(Debug)]
pub struct Server {
    /// Completed records awaiting persistence.
    pub buffer: RecordBuffer,
    /// The interval tracker's state.
    pub pending: PendingWindow,
    /// Where the daemon stands in its life.
    pub phase: Phase,
}

impl Server {
    /// A freshly started daemon: empty buffer, nothing pending, running.
    pub fn new() -> (s: Server)
        ensures
            s.buffer@ == Seq::<Window>::empty(),
            s.pending.window is None,
            s.pending.since == 0,
            s.phase == Phase::Running,
    {
        Server { buffer: RecordBuffer::new(), pending: PendingWindow::new(), phase: Phase::Running }
    }

    /// The focus-event branch: feed the event through the tracker, buffer
    /// the record it closes, and hand back the whole buffer for
    /// persistence if that made the size trigger fire.
    ///
    /// A returned batch holds every buffered record and leaves the buffer
    /// empty; the loop must persist it, and a failure there is fatal.
    pub fn on_focus_event(&mut self, event: FocusEvent, now: u64) -> (flush: Option<Vec<Window>>)
        requires
            old(self).pending.since <= now,
            old(self).phase == Phase::Running,
        ensures
            final(self).phase == Phase::Running,
            final(self).pending == spec_transition(old(self).pending, event, now).0,
            ({
                let emitted = spec_transition(old(self).pending, event, now).1;
                let appended = match emitted {
                    Some(w) => old(self).buffer@.push(w),
                    None => old(self).buffer@,
                };
                match flush {
                    Some(batch) => {
                        &&& appended.len() >= FLUSH_THRESHOLD
                        &&& batch@ == appended
                        &&& final(self).buffer@ == Seq::<Window>::empty()
                    },
                    None => {
                        &&& appended.len() < FLUSH_THRESHOLD
                        &&& final(self).buffer@ == appended
                    },
                }
            }),
            ({
                let emitted = spec_transition(old(self).pending, event, now).1;
                emitted matches Some(w) ==> {
                    let step = spec_append_step(old(self).buffer@, w);
                    &&& final(self).buffer@ == step.0
                    &&& (match flush {
                        Some(batch) => step.1 == Some(batch@),
                        None => step.1 is None,
                    })
                }
            }),
    {
        let emitted = self.pending.transition(event, now);
        if let Some(w) = emitted {
            self.buffer.append(w);
        }
        if self.buffer.should_flush_on_size() {
            Some(self.buffer.drain())
        } else {
            None
        }
    }

    /// The timer branch: the periodic flush drains the buffer
    /// unconditionally, even when it is empty.  The loop must persist the
    /// batch; a failure there is fatal.
    pub fn on_timer_tick(&mut self) -> (batch: Vec<Window>)
        requires
            old(self).phase == Phase::Running,
        ensures
            batch@ == old(self).buffer@,
            final(self).buffer@ == Seq::<Window>::empty(),
            final(self).pending == old(self).pending,
            final(self).phase == old(self).phase,
    {
        self.buffer.drain()
    }

    /// The control branch: decode one request byte and decide.
    ///
    /// `Ping` touches nothing and answers success: a launcher's singleton
    /// probe reads the daemon's liveness without changing its state.
    /// `Save` drains the buffer — every record completed before the
    /// request, none completed after — for exactly one persistence call.
    /// `Stop` asks for graceful shutdown and answers success.  A byte that
    /// decodes to no known request changes nothing and is answered with
    /// the unknown-message code.
    pub fn on_control_request(&mut self, request: u8) -> (outcome: ControlOutcome)
        requires
            old(self).phase == Phase::Running,
        ensures
            final(self).pending == old(self).pending,
            request == MSG_PING ==> *final(self) == *old(self) && (outcome matches
                ControlOutcome::Reply { response } && response == RESPONSE_SUCCESS),
            request == MSG_SAVE ==> (outcome matches ControlOutcome::PersistThenReply { batch }
                && batch@ == old(self).buffer@) && final(self).buffer@ == Seq::<Window>::empty()
                && final(self).phase == old(self).phase,
            request == MSG_STOP ==> final(self).phase == Phase::Draining && final(self).buffer@
                == old(self).buffer@ && (outcome matches ControlOutcome::Reply { response }
                && response == RESPONSE_SUCCESS),
            request != MSG_PING && request != MSG_SAVE && request != MSG_STOP ==> *final(self)
                == *old(self) && (outcome matches ControlOutcome::Reply { response } && response
                == RESPONSE_UNKNOWN_MESSAGE),
    {
        match Message::try_from_byte(request) {
            Ok(Message::Ping) => ControlOutcome::Reply { response: RESPONSE_SUCCESS },
            Ok(Message::Save) => ControlOutcome::PersistThenReply { batch: self.buffer.drain() },
            Ok(Message::Stop) => {
                self.phase = Phase::Draining;
                ControlOutcome::Reply { response: RESPONSE_SUCCESS }
            },
            Err(()) => ControlOutcome::Reply { response: RESPONSE_UNKNOWN_MESSAGE },
        }
    }

    /// Report how the persistence call for a save-command batch went, and
    /// get the response byte to write.  On success the batch is gone and
    /// the daemon is as it was; on failure the batch goes back in front of
    /// anything buffered since, to be retried by the next trigger, and the
    /// caller is told the handler failed.
    pub fn on_persist_outcome(&mut self, batch: Vec<Window>, persisted: bool) -> (response: u8)
        ensures
            persisted ==> *final(self) == *old(self) && response == RESPONSE_SUCCESS,
            !persisted ==> final(self).buffer@ == batch@ + old(self).buffer@ && final(self).pending
                == old(self).pending && final(self).phase == old(self).phase && response
                == RESPONSE_FAILED,
    {
        if persisted {
            RESPONSE_SUCCESS
        } else {
            self.buffer.restore(batch);
            RESPONSE_FAILED
        }
    }

    /// A termination signal (or the daemon's own stop notice) arrived:
    /// request graceful shutdown, touching nothing else.  Signals funnel
    /// into the same shutdown path as a `Stop` request.  `Stopped` is
    /// terminal: a stopped daemon cannot be asked to drain again.
    pub fn on_shutdown_notice(&mut self)
        requires
            old(self).phase != Phase::Stopped,
        ensures
            final(self).phase == Phase::Draining,
            final(self).buffer@ == old(self).buffer@,
            final(self).pending == old(self).pending,
    {
        self.phase = Phase::Draining;
    }

    /// The graceful shutdown drain: close the still-pending interval with
    /// the last observed instant, append its record, and drain everything
    /// for one final unconditional persistence call — empty or not.  The
    /// daemon is `Stopped` afterwards.
    pub fn shutdown_drain(&mut self, now: u64) -> (batch: Vec<Window>)
        requires
            old(self).pending.since <= now,
            old(self).phase != Phase::Stopped,
        ensures
            ({
                let finished = spec_emitted(old(self).pending, now);
                match finished {
                    Some(w) => batch@ == old(self).buffer@.push(w),
                    None => batch@ == old(self).buffer@,
                }
            }),
            final(self).buffer@ == Seq::<Window>::empty(),
            final(self).pending.window is None,
            final(self).phase == Phase::Stopped,
    {
        let finished = self.pending.finalize(now);
        if let Some(w) = finished {
            self.buffer.append(w);
        }
        self.phase = Phase::Stopped;
        self.buffer.drain()
    }
}

/// One step of the focus branch's flush policy, on the buffer alone:
/// append the completed record; if that reaches the threshold, the whole
/// buffer is flushed.
pub open spec fn spec_append_step(buf: Seq<Window>, record: Window) -> (
    Seq<Window>,
    Option<Seq<Window>>,
) {
    let appended = buf.push(record);
    if appended.len() >= FLUSH_THRESHOLD {
        (Seq::<Window>::empty(), Some(appended))
    } else {
        (appended, None)
    }
}

/// The flush policy run over a sequence of completed records: the final
/// buffer and the flushed batches, in flush order.
pub open spec fn spec_run_appends(buf: Seq<Window>, records: Seq<Window>) -> (
    Seq<Window>,
    Seq<Seq<Window>>,
)
    decreases records.len(),
{
    if records.len() == 0 {
        (buf, Seq::empty())
    } else {
        let step = spec_append_step(buf, records[0]);
        let rest = spec_run_appends(step.0, records.drop_first());
        (
            rest.0,
            match step.1 {
                Some(batch) => seq![batch] + rest.1,
                None => rest.1,
            },
        )
    }
}

/// All flushed batches, one after the other.
pub open spec fn spec_concat_batches(batches: Seq<Seq<Window>>) -> Seq<Window>
    decreases batches.len(),
{
    if batches.len() == 0 {
        Seq::empty()
    } else {
        batches[0] + spec_concat_batches(batches.drop_first())
    }
}

/// Law (the size trigger in general): starting below the threshold,
/// every size-triggered flush carries exactly [`FLUSH_THRESHOLD`]
/// records, the buffer ends below the threshold, and nothing is lost or
/// reordered — the flushed batches followed by what stays buffered are
/// exactly the prior buffer followed by the records in completion order.
/// The totals then fix the flush count: threshold times the number of
/// flushes plus what remains equals everything seen, so 150 records into
/// an empty buffer give exactly one flush, of 100 records, and leave 50.
pub proof fn lemma_flush_policy(buf: Seq<Window>, records: Seq<Window>)
    requires
        buf.len() < FLUSH_THRESHOLD,
    ensures
        ({
            let run = spec_run_appends(buf, records);
            &&& run.0.len() < FLUSH_THRESHOLD
            &&& forall|i: int|
                0 <= i < run.1.len() ==> (#[trigger] run.1[i]).len() == FLUSH_THRESHOLD
            &&& spec_concat_batches(run.1) + run.0 == buf + records
            &&& FLUSH_THRESHOLD * run.1.len() + run.0.len() == buf.len() + records.len()
        }),
    decreases records.len(),
{
    if records.len() > 0 {
        let step = spec_append_step(buf, records[0]);
        let rest = records.drop_first();
        lemma_flush_policy(step.0, rest);
        let run = spec_run_appends(buf, records);
        let rest_run = spec_run_appends(step.0, rest);
        assert(buf.push(records[0]) + rest =~= buf + records);
        if step.1 is Some {
            let batch = step.1->Some_0;
            assert(batch.len() == FLUSH_THRESHOLD);
            assert(run.1 == seq![batch] + rest_run.1);
            assert forall|i: int| 0 <= i < run.1.len() implies (#[trigger] run.1[i]).len()
                == FLUSH_THRESHOLD by {
                if i > 0 {
                    assert(run.1[i] == rest_run.1[i - 1]);
                }
            }
            assert((seq![batch] + rest_run.1).drop_first() =~= rest_run.1);
            assert((seq![batch] + rest_run.1)[0] == batch);
            assert(spec_concat_batches(run.1) == batch + spec_concat_batches(rest_run.1));
            assert(step.0 =~= Seq::<Window>::empty());
            assert(spec_concat_batches(rest_run.1) + rest_run.0 =~= rest);
            assert(spec_concat_batches(run.1) + run.0 =~= batch + rest);
            assert(batch =~= buf.push(records[0]));
        } else {
            assert(run.1 == rest_run.1);
            assert(spec_concat_batches(run.1) + run.0 =~= buf + records);
        }
    }
}

} // verus!
