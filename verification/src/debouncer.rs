//! The debounce engine: a burst of events becomes one firing, a quiet period
//! after the last of them.
//!
//! The engine keeps no clock and runs no timer. Its caller tells it the time
//! of each event, waits, and tells it when a timer has run out; the engine
//! answers whether the payload is due. Times are counted in milliseconds
//! from any fixed origin.

use crate::git::EventContext;
use vstd::prelude::*;

verus! {

/// The state of an engine, as contracts speak of it.
pub struct Engine {
    /// Length of the quiet period.
    pub delay: nat,
    /// Payload of the most recent event that has not fired.
    pub pending: Option<EventContext>,
    /// Time of the event that armed the timer in flight, if one is.
    pub armed_at: Option<nat>,
}

impl Engine {
    /// An engine at rest: no timer, no payload.
    pub open spec fn idle(delay: nat) -> Engine {
        Engine { delay, pending: None, armed_at: None }
    }

    pub open spec fn is_armed(self) -> bool {
        self.armed_at is Some
    }

    /// When the timer in flight runs out.
    pub open spec fn deadline(self) -> nat
        recommends
            self.is_armed(),
    {
        self.armed_at->0 + self.delay
    }

    /// Whether a timer is in flight and has run out by `now`.
    pub open spec fn due(self, now: nat) -> bool {
        self.is_armed() && now >= self.deadline()
    }

    /// How long after `now` the timer in flight runs out: nothing where it
    /// has run out already.
    pub open spec fn remaining(self, now: nat) -> nat
        recommends
            self.is_armed(),
    {
        if now >= self.deadline() {
            0
        } else {
            (self.deadline() - now) as nat
        }
    }

    /// The engine after an event at `now`: the payload replaces the pending
    /// one, and a fresh timer replaces the one in flight.
    pub open spec fn on_event(self, payload: EventContext, now: nat) -> Engine {
        Engine { delay: self.delay, pending: Some(payload), armed_at: Some(now) }
    }

    /// What a wake-up at `now` hands to the callback: the pending payload if
    /// the timer is due, nothing otherwise.
    pub open spec fn fired(self, now: nat) -> Option<EventContext> {
        if self.due(now) {
            self.pending
        } else {
            None
        }
    }

    /// The engine after a wake-up at `now`: at rest if the timer was due,
    /// unchanged otherwise.
    pub open spec fn on_timeout(self, now: nat) -> Engine {
        if self.due(now) {
            Engine::idle(self.delay)
        } else {
            self
        }
    }

    /// The engine after its timer was cancelled: the payload stays.
    pub open spec fn cancelled(self) -> Engine {
        Engine { delay: self.delay, pending: self.pending, armed_at: None }
    }
}

/// Delays a payload until no event has arrived for a fixed quiet period.
/// At most one timer is in flight at any instant.
pub struct Debouncer {
    delay: u64,
    pending: Option<EventContext>,
    armed_at: Option<u64>,
}

impl View for Debouncer {
    type V = Engine;

    closed spec fn view(&self) -> Engine {
        Engine {
            delay: self.delay as nat,
            pending: self.pending,
            armed_at: match self.armed_at {
                Some(t) => Some(t as nat),
                None => None,
            },
        }
    }
}

impl Debouncer {
    /// An engine at rest with a quiet period of `delay`.
    pub fn new(delay: u64) -> (engine: Debouncer)
        ensures
            engine@ == Engine::idle(delay as nat),
    {
        Debouncer { delay, pending: None, armed_at: None }
    }

    /// The quiet period.
    pub fn delay(&self) -> (delay: u64)
        ensures
            delay == self@.delay,
    {
        self.delay
    }

    /// Whether a timer is in flight.
    pub fn is_armed(&self) -> (armed: bool)
        ensures
            armed == self@.is_armed(),
    {
        self.armed_at.is_some()
    }

    /// Whether a timer is in flight and has run out by `now`.
    pub fn is_due(&self, now: u64) -> (due: bool)
        ensures
            due == self@.due(now as nat),
    {
        match self.armed_at {
            Some(t) => now >= t && now - t >= self.delay,
            None => false,
        }
    }

    /// How long to wait from `now` until the timer in flight runs out, cut
    /// off at the largest number; `None` where no timer is in flight.
    pub fn remaining(&self, now: u64) -> (wait: Option<u64>)
        ensures
            wait is Some == self@.is_armed(),
            self@.is_armed() ==> wait->0 == if self@.remaining(now as nat) > u64::MAX {
                u64::MAX as nat
            } else {
                self@.remaining(now as nat)
            },
    {
        match self.armed_at {
            None => None,
            Some(t) => {
                if now >= t {
                    let elapsed = now - t;
                    if elapsed >= self.delay {
                        Some(0)
                    } else {
                        Some(self.delay - elapsed)
                    }
                } else {
                    Some(self.delay.saturating_add(t - now))
                }
            },
        }
    }

    /// Takes an event at `now`. Its payload replaces the pending one. The
    /// result says whether a timer was in flight: the caller stops that
    /// timer, then starts one that runs for the quiet period.
    pub fn on_event(&mut self, context: EventContext, now: u64) -> (superseded: bool)
        ensures
            final(self)@ == old(self)@.on_event(context, now as nat),
            superseded == old(self)@.is_armed(),
    {
        let superseded = self.armed_at.is_some();
        self.pending = Some(context);
        self.armed_at = Some(now);
        superseded
    }

    /// Takes the wake-up of a timer at `now`. Where the timer in flight is
    /// due, the engine comes to rest and hands out the pending payload for
    /// the callback. Otherwise (no timer in flight, or a newer event has
    /// moved the deadline) nothing changes and nothing is handed out.
    pub fn on_timeout(&mut self, now: u64) -> (payload: Option<EventContext>)
        ensures
            final(self)@ == old(self)@.on_timeout(now as nat),
            payload == old(self)@.fired(now as nat),
    {
        if self.is_due(now) {
            self.armed_at = None;
            self.pending.take()
        } else {
            None
        }
    }

    /// Cancels the timer in flight, as when the engine is discarded. The
    /// result says whether there was one to stop. The pending payload stays.
    pub fn cancel(&mut self) -> (was_armed: bool)
        ensures
            final(self)@ == old(self)@.cancelled(),
            was_armed == old(self)@.is_armed(),
    {
        let was_armed = self.armed_at.is_some();
        self.armed_at = None;
        was_armed
    }
}

/// One call of `on_event`: when, and with which payload.
pub struct Call {
    pub at: nat,
    pub payload: EventContext,
}

/// One run of the callback: when, and with which payload.
pub struct Firing {
    pub at: nat,
    pub payload: EventContext,
}

impl Engine {
    /// What the timer in flight does if no further event arrives: it runs
    /// out at its deadline and the callback gets the pending payload.
    pub open spec fn expiry(self) -> Seq<Firing> {
        if self.is_armed() && self.pending is Some {
            seq![Firing { at: self.deadline(), payload: self.pending->0 }]
        } else {
            Seq::empty()
        }
    }

    /// The engine after the calls of `calls`, each preceded by the wake-up
    /// of the timer in flight where that timer has run out by then.
    pub open spec fn after(self, calls: Seq<Call>) -> Engine
        decreases calls.len(),
    {
        if calls.len() == 0 {
            self
        } else {
            let before = self.after(calls.drop_last());
            let call = calls.last();
            before.on_timeout(call.at).on_event(call.payload, call.at)
        }
    }

    /// The runs of the callback up to the last call of `calls`, in order.
    pub open spec fn fired_during(self, calls: Seq<Call>) -> Seq<Firing>
        decreases calls.len(),
    {
        if calls.len() == 0 {
            Seq::empty()
        } else {
            let before = self.after(calls.drop_last());
            let earlier = self.fired_during(calls.drop_last());
            if before.due(calls.last().at) {
                earlier + before.expiry()
            } else {
                earlier
            }
        }
    }
}

/// Every run of the callback that an engine at rest with quiet period
/// `delay` makes for the calls of `calls`, the one after the last call
/// included.
pub open spec fn firings(delay: nat, calls: Seq<Call>) -> Seq<Firing> {
    let start = Engine::idle(delay);
    start.fired_during(calls) + start.after(calls).expiry()
}

/// Whether the times of `calls` never go back.
pub open spec fn in_order(calls: Seq<Call>) -> bool {
    forall|i: int| 0 <= i < calls.len() - 1 ==> (#[trigger] calls[i]).at <= calls[i + 1].at
}

/// Whether each call of `calls` but the first comes less than `delay` after
/// the one before it.
pub open spec fn spaced_closer_than(calls: Seq<Call>, delay: nat) -> bool {
    forall|i: int| 0 <= i < calls.len() - 1 ==> calls[i + 1].at - (#[trigger] calls[i]).at < delay
}

/// Whether each call of `calls` but the first comes more than `delay` after
/// the one before it.
pub open spec fn spaced_further_than(calls: Seq<Call>, delay: nat) -> bool {
    forall|i: int| 0 <= i < calls.len() - 1 ==> calls[i + 1].at - (#[trigger] calls[i]).at > delay
}

/// After any calls, the engine is armed by the last of them and holds its
/// payload.
pub proof fn last_call_is_pending(start: Engine, calls: Seq<Call>)
    requires
        calls.len() > 0,
    ensures
        start.after(calls) == (Engine {
            delay: start.delay,
            pending: Some(calls.last().payload),
            armed_at: Some(calls.last().at),
        }),
    decreases calls.len(),
{
    if calls.len() > 1 {
        last_call_is_pending(start, calls.drop_last());
    } else {
        assert(start.after(calls.drop_last()) == start);
    }
}

proof fn burst_fires_nothing_early(delay: nat, calls: Seq<Call>)
    requires
        in_order(calls),
        spaced_closer_than(calls, delay),
    ensures
        Engine::idle(delay).fired_during(calls) == Seq::<Firing>::empty(),
    decreases calls.len(),
{
    if calls.len() > 0 {
        let head = calls.drop_last();
        burst_fires_nothing_early(delay, head);
        if head.len() > 0 {
            last_call_is_pending(Engine::idle(delay), head);
            assert(head.last() == calls[calls.len() - 2]);
            assert(calls.last() == calls[calls.len() - 2 + 1]);
        }
    }
}

/// For calls in order, each less than the quiet period after the one before
/// it, the callback runs exactly once: with the payload of the last call,
/// one quiet period after that call.
pub proof fn burst_fires_once(delay: nat, calls: Seq<Call>)
    requires
        calls.len() > 0,
        in_order(calls),
        spaced_closer_than(calls, delay),
    ensures
        firings(delay, calls) == seq![
            Firing { at: calls.last().at + delay, payload: calls.last().payload },
        ],
{
    burst_fires_nothing_early(delay, calls);
    last_call_is_pending(Engine::idle(delay), calls);
    assert(firings(delay, calls) =~= seq![
        Firing { at: calls.last().at + delay, payload: calls.last().payload },
    ]);
}

proof fn spaced_calls_fire_each_earlier(delay: nat, calls: Seq<Call>)
    requires
        spaced_further_than(calls, delay),
    ensures
        Engine::idle(delay).fired_during(calls).len() == if calls.len() == 0 {
            0
        } else {
            calls.len() - 1
        },
        forall|i: int|
            0 <= i < calls.len() - 1 ==> Engine::idle(delay).fired_during(calls)[i] == (Firing {
                at: calls[i].at + delay,
                payload: calls[i].payload,
            }),
    decreases calls.len(),
{
    if calls.len() > 0 {
        let head = calls.drop_last();
        spaced_calls_fire_each_earlier(delay, head);
        if head.len() > 0 {
            last_call_is_pending(Engine::idle(delay), head);
            assert(head.last() == calls[calls.len() - 2]);
            assert(calls.last() == calls[calls.len() - 2 + 1]);
            let before = Engine::idle(delay).after(head);
            assert(before.due(calls.last().at));
            assert(before.expiry() =~= seq![
                Firing { at: head.last().at + delay, payload: head.last().payload },
            ]);
        }
    }
}

/// For calls each more than the quiet period after the one before it, the
/// callback runs once per call: with that call's payload, one quiet period
/// after it.
pub proof fn spaced_calls_fire_each(delay: nat, calls: Seq<Call>)
    requires
        spaced_further_than(calls, delay),
    ensures
        firings(delay, calls).len() == calls.len(),
        forall|i: int|
            0 <= i < calls.len() ==> firings(delay, calls)[i] == (Firing {
                at: calls[i].at + delay,
                payload: calls[i].payload,
            }),
{
    spaced_calls_fire_each_earlier(delay, calls);
    if calls.len() > 0 {
        last_call_is_pending(Engine::idle(delay), calls);
    }
}

} // verus!
