//! The record buffer and its size-based flush trigger.
//!
//! Completed usage records accumulate here, in completion order, until a
//! flush moves them to durable storage.  Flushes happen when the buffer
//! reaches [`FLUSH_THRESHOLD`] records, when the periodic timer fires, when
//! a save command arrives, and unconditionally at shutdown; all of them
//! funnel through the same drain-and-persist action.  Because a failed
//! persist must not lose records, the buffer can also take a drained batch
//! back, in front of anything appended since.

use vstd::prelude::*;

use crate::records::Window;

verus! {

/// Number of buffered records at which a size-triggered flush is due.
pub const FLUSH_THRESHOLD: usize = 100;

/// An ordered sequence of usage records awaiting persistence; insertion
/// order is completion order.
#[derive(Debug)]
pub struct RecordBuffer {
    records: Vec<Window>,
}

impl View for RecordBuffer {
    type V = Seq<Window>;

    closed spec fn view(&self) -> Seq<Window> {
        self.records@
    }
}

/// What a drain does, as a value: the records handed out (all of them, in
/// order) and the contents left behind (none).
pub open spec fn spec_drain(contents: Seq<Window>) -> (Seq<Window>, Seq<Window>) {
    (contents, Seq::<Window>::empty())
}

impl RecordBuffer {
    /// An empty buffer, as the daemon starts with.
    pub fn new() -> (b: RecordBuffer)
        ensures
            b@ == Seq::<Window>::empty(),
    {
        RecordBuffer { records: Vec::new() }
    }

    /// How many records await persistence.
    pub fn len(&self) -> (n: usize)
        ensures
            n == self@.len(),
    {
        self.records.len()
    }

    /// Whether nothing awaits persistence.
    pub fn is_empty(&self) -> (e: bool)
        ensures
            e == (self@.len() == 0),
    {
        self.records.is_empty()
    }

    /// Add one completed record at the end.
    pub fn append(&mut self, record: Window)
        ensures
            final(self)@ == old(self)@.push(record),
    {
        self.records.push(record);
    }

    /// Whether the size trigger fires: true once the buffer holds
    /// [`FLUSH_THRESHOLD`] records or more.
    pub fn should_flush_on_size(&self) -> (due: bool)
        ensures
            due == (self@.len() >= FLUSH_THRESHOLD),
    {
        self.records.len() >= FLUSH_THRESHOLD
    }

    /// Empty the buffer and hand out its prior contents, oldest first.
    pub fn drain(&mut self) -> (drained: Vec<Window>)
        ensures
            (drained@, final(self)@) == spec_drain(old(self)@),
            drained@ == old(self)@,
            final(self)@ == Seq::<Window>::empty(),
    {
        let mut taken: Vec<Window> = Vec::new();
        core::mem::swap(&mut self.records, &mut taken);
        taken
    }

    /// Put a drained batch back after a failed persist.  The batch's
    /// records are older than anything appended since the drain, so they go
    /// in front; the next flush trigger will retry them without loss or
    /// duplication.
    pub fn restore(&mut self, batch: Vec<Window>)
        ensures
            final(self)@ == batch@ + old(self)@,
    {
        let mut front = batch;
        front.append(&mut self.records);
        core::mem::swap(&mut self.records, &mut front);
    }
}

/// Law: a `drain` followed immediately by another `drain`, with no
/// `append` between them, returns an empty sequence the second time.  The
/// first drain leaves nothing behind, and a drain returns exactly what the
/// buffer held.
pub proof fn lemma_empty_drain_idempotent(contents: Seq<Window>)
    ensures
        spec_drain(spec_drain(contents).1).0 == Seq::<Window>::empty(),
{
}

} // verus!
