//! The interval tracker: turns the stream of focus-change notifications
//! into closed usage intervals.
//!
//! The tracker keeps exactly one piece of state, the [`PendingWindow`]: the
//! identity of the window currently holding focus (if any) and the instant
//! it took focus.  Each incoming event closes the pending interval, emits a
//! record for it, and opens a new one; a final [`PendingWindow::finalize`]
//! at shutdown closes the last interval so it is not lost.

use vstd::prelude::*;

use crate::records::Window;

verus! {

/// The identity of a focused window: its title and its class (the
/// application category tag).  Both are opaque strings to the tracker.
#[derive(Debug, PartialEq)]
pub struct WindowIdentity {
    /// Window title.
    pub title: String,
    /// Window class.
    pub class: String,
}

/// One notification from the focus event source.
#[derive(Debug, PartialEq)]
pub enum FocusEvent {
    /// A window took focus.
    WindowActive {
        /// Title of the newly focused window.
        title: String,
        /// Class of the newly focused window.
        class: String,
    },
    /// The focused window closed, or the desktop became empty.
    WindowClosed,
}

/// The tracker's whole state: which window has held focus since `since`
/// (milliseconds since the epoch), if any.  Replaced wholesale on every
/// transition, never mutated in place.
#[derive(Debug, PartialEq)]
pub struct PendingWindow {
    /// The window currently holding focus, or `None` after a close.
    pub window: Option<WindowIdentity>,
    /// The instant, in milliseconds, at which the current state began.
    pub since: u64,
}

/// The record a transition at instant `now` emits: the pending interval,
/// closed.  `None` when no window was pending (nothing to attribute).
pub open spec fn spec_emitted(t: PendingWindow, now: u64) -> Option<Window> {
    match t.window {
        Some(id) => Some(
            Window {
                datetime: t.since,
                title: id.title,
                class: id.class,
                duration: (now - t.since) as u64,
            },
        ),
        None => None,
    }
}

/// The tracker state after an event at instant `now`: the event's window
/// (if any) pending since `now`.
pub open spec fn spec_next(event: FocusEvent, now: u64) -> PendingWindow {
    PendingWindow {
        window: match event {
            FocusEvent::WindowActive { title, class } => Some(WindowIdentity { title, class }),
            FocusEvent::WindowClosed => None,
        },
        since: now,
    }
}

/// One full transition: what the tracker becomes and what it emits.
pub open spec fn spec_transition(t: PendingWindow, event: FocusEvent, now: u64) -> (
    PendingWindow,
    Option<Window>,
) {
    (spec_next(event, now), spec_emitted(t, now))
}

/// Build the record for a window that held focus for `duration`
/// milliseconds, ending at instant `now`: its start is back-dated to when
/// the interval actually began.
pub fn new_window(identity: WindowIdentity, now: u64, duration: u64) -> (w: Window)
    requires
        duration <= now,
    ensures
        w.datetime == now - duration,
        w.title == identity.title,
        w.class == identity.class,
        w.duration == duration,
{
    Window { datetime: now - duration, title: identity.title, class: identity.class, duration }
}

impl PendingWindow {
    /// A fresh tracker: nothing pending, the clock at zero.
    pub fn new() -> (t: PendingWindow)
        ensures
            t.window is None,
            t.since == 0,
    {
        PendingWindow { window: None, since: 0 }
    }

    /// Feed one focus event observed at instant `now`.
    ///
    /// If a window was pending, its interval is closed and returned, with
    /// the identity the tracker held before the event and a duration of
    /// `now - since`; nothing is emitted on the very first event or when no
    /// window was pending.  The tracker then holds the event's window (or
    /// nothing, for a close) pending since `now`.
    pub fn transition(&mut self, event: FocusEvent, now: u64) -> (emitted: Option<Window>)
        requires
            old(self).since <= now,
        ensures
            *final(self) == spec_transition(*old(self), event, now).0,
            emitted == spec_transition(*old(self), event, now).1,
            emitted is Some <==> old(self).window is Some,
    {
        let prev_window = self.window.take();
        let prev_since = self.since;
        let emitted = match prev_window {
            Some(id) => Some(new_window(id, now, now - prev_since)),
            None => None,
        };
        self.window = match event {
            FocusEvent::WindowActive { title, class } => Some(WindowIdentity { title, class }),
            FocusEvent::WindowClosed => None,
        };
        self.since = now;
        emitted
    }

    /// Close the pending interval at shutdown, using the last observed
    /// instant, so the still-active window is not lost.  This is the one
    /// case where a record is synthesized without a new incoming event; no
    /// record is made when nothing was pending.
    pub fn finalize(&mut self, now: u64) -> (emitted: Option<Window>)
        requires
            old(self).since <= now,
        ensures
            *final(self) == spec_transition(*old(self), FocusEvent::WindowClosed, now).0,
            emitted == spec_transition(*old(self), FocusEvent::WindowClosed, now).1,
            emitted is Some <==> old(self).window is Some,
            final(self).window is None,
    {
        self.transition(FocusEvent::WindowClosed, now)
    }
}

/// The tracker run over a whole event sequence: the final state and the
/// records emitted, in completion order.
pub open spec fn run_events(t: PendingWindow, events: Seq<(FocusEvent, u64)>) -> (
    PendingWindow,
    Seq<Window>,
)
    decreases events.len(),
{
    if events.len() == 0 {
        (t, Seq::empty())
    } else {
        let stepped = spec_transition(t, events[0].0, events[0].1);
        let rest = run_events(stepped.0, events.drop_first());
        (
            rest.0,
            match stepped.1 {
                Some(w) => seq![w] + rest.1,
                None => rest.1,
            },
        )
    }
}

/// The number of become-active-then-become-inactive transitions in an event
/// sequence, given whether a window is active when it starts: each event
/// that finds a window active closes one interval.
pub open spec fn spec_transition_count(active: bool, events: Seq<(FocusEvent, u64)>) -> nat
    decreases events.len(),
{
    if events.len() == 0 {
        0
    } else {
        (if active {
            1nat
        } else {
            0nat
        }) + spec_transition_count(events[0].0 is WindowActive, events.drop_first())
    }
}

/// A run emits exactly one record per event that found a window active, and
/// ends with a window active exactly when its last event made one active.
pub proof fn lemma_emitted_count(t: PendingWindow, events: Seq<(FocusEvent, u64)>)
    ensures
        run_events(t, events).1.len() == spec_transition_count(t.window is Some, events),
        (run_events(t, events).0.window is Some) == (if events.len() == 0 {
            t.window is Some
        } else {
            events.last().0 is WindowActive
        }),
    decreases events.len(),
{
    if events.len() > 0 {
        let stepped = spec_transition(t, events[0].0, events[0].1);
        lemma_emitted_count(stepped.0, events.drop_first());
        if events.len() > 1 {
            assert(events.drop_first().last() == events.last());
        }
    }
}

/// The count of records a whole session emits: one per transition observed,
/// plus exactly one more from the final drain if the sequence ends with a
/// window still active.
pub proof fn lemma_record_count_with_final_drain(
    t: PendingWindow,
    events: Seq<(FocusEvent, u64)>,
    end: u64,
)
    ensures
        ({
            let run = run_events(t, events);
            let drained = spec_emitted(run.0, end);
            let ends_active = if events.len() == 0 {
                t.window is Some
            } else {
                events.last().0 is WindowActive
            };
            run.1.len() + (if drained is Some {
                1int
            } else {
                0int
            }) == spec_transition_count(t.window is Some, events) + (if ends_active {
                1int
            } else {
                0int
            })
        }),
{
    lemma_emitted_count(t, events);
}

/// The total duration attributed by a sequence of records, in milliseconds.
pub open spec fn sum_durations(ws: Seq<Window>) -> int
    decreases ws.len(),
{
    if ws.len() == 0 {
        0
    } else {
        ws[0].duration + sum_durations(ws.drop_first())
    }
}

/// Every event in the sequence reports a window taking focus.
pub open spec fn all_active(events: Seq<(FocusEvent, u64)>) -> bool {
    forall|i: int|
        #![trigger events[i]]
        0 <= i < events.len() ==> events[i].0 is WindowActive
}

/// The event instants never go backwards, starting from `since`.
pub open spec fn times_ascending_from(since: u64, events: Seq<(FocusEvent, u64)>) -> bool {
    &&& (events.len() > 0 ==> since <= events[0].1)
    &&& forall|i: int|
        #![trigger events[i]]
        0 <= i < events.len() - 1 ==> events[i].1 <= events[i + 1].1
}

/// With no gaps in tracking — a window active at the start, every event
/// keeping one active, and instants never going backwards — the durations
/// of the emitted records, final drain included, add up to exactly the
/// wall-clock time elapsed from the start of tracking to the final drain.
pub proof fn lemma_durations_cover_elapsed(
    t: PendingWindow,
    events: Seq<(FocusEvent, u64)>,
    end: u64,
)
    requires
        t.window is Some,
        all_active(events),
        times_ascending_from(t.since, events),
        if events.len() == 0 {
            t.since <= end
        } else {
            events.last().1 <= end
        },
    ensures
        ({
            let run = run_events(t, events);
            let drained = spec_emitted(run.0, end);
            &&& drained is Some
            &&& sum_durations(run.1) + drained->Some_0.duration == end - t.since
        }),
    decreases events.len(),
{
    if events.len() == 0 {
    } else {
        let stepped = spec_transition(t, events[0].0, events[0].1);
        let rest = events.drop_first();
        assert(events[0].0 is WindowActive);
        assert forall|i: int| #![trigger rest[i]] 0 <= i < rest.len() implies rest[i].0
            is WindowActive by {
            assert(rest[i] == events[i + 1]);
        }
        assert forall|i: int| #![trigger rest[i]] 0 <= i < rest.len() - 1 implies rest[i].1 <= rest[i
            + 1].1 by {
            assert(rest[i] == events[i + 1]);
            assert(rest[i + 1] == events[i + 2]);
        }
        if rest.len() > 0 {
            assert(events[0].1 <= events[1].1);
            assert(rest[0] == events[1]);
            assert(rest.last() == events.last());
        }
        lemma_durations_cover_elapsed(stepped.0, rest, end);
        let run = run_events(t, events);
        let rest_run = run_events(stepped.0, rest);
        let w = spec_emitted(t, events[0].1)->Some_0;
        assert(run.1 == seq![w] + rest_run.1);
        assert((seq![w] + rest_run.1).drop_first() =~= rest_run.1);
        assert((seq![w] + rest_run.1)[0] == w);
        assert(sum_durations(run.1) == w.duration + sum_durations(rest_run.1));
        assert(w.duration == events[0].1 - t.since);
    }
}

} // verus!
