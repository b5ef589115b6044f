//! The processing unit of one sensor: its block state and the queue of edges
//! that have arrived and are not yet reported.
//!
//! A unit owns everything that concerns its sensor; units share nothing.
//! Time is counted in milliseconds from an origin that the caller picks. A
//! unit never goes back in time: a time earlier than the latest one it has
//! seen is taken for that latest one.
//!
//! The edges of a sensor are reported in the order in which they arrived,
//! one message for each, and none is ever dropped. A falling edge is due
//! when it has lasted for the settle delay. A rising edge is due on arrival,
//! but it does not overtake: while a falling edge of the same sensor waits, a
//! rising edge that arrives after it waits behind it, and "blocked" follows
//! "clear" when the falling edge has settled.

use std::collections::VecDeque;
use vstd::prelude::*;
use crate::axle::AxlePosition;
use crate::classifier::{classification, classify, delay_for, settle_delay};
use crate::edge::{EdgeEvent, EdgeKind};
use crate::message::BlockStateMessage;

verus! {

/// An edge that has arrived and is not yet reported.
#[derive(Clone, Copy, Debug, PartialEq, Eq, Structural)]
pub struct Waiting {
    /// The time at which the edge arrived.
    pub arrived: u64,
    pub kind: EdgeKind,
}

/// The time that has passed at `now` since `arrived`; none if `now` lies
/// before it.
pub open spec fn elapsed(arrived: u64, now: u64) -> int {
    if now >= arrived {
        now - arrived
    } else {
        0
    }
}

/// Whether an edge has lasted at `now` for as long as its kind asks.
pub open spec fn is_due(entry: Waiting, now: u64) -> bool {
    elapsed(entry.arrived, now) >= settle_delay(entry.kind)
}

/// Whether a falling edge that arrived at `arrived` has lasted for the
/// settle delay at `now`.
pub open spec fn has_settled(arrived: u64, now: u64) -> bool {
    is_due(Waiting { arrived, kind: EdgeKind::Falling }, now)
}

/// The time still to pass at `now` until an edge is due.
pub open spec fn time_to_due(entry: Waiting, now: u64) -> int {
    if is_due(entry, now) {
        0
    } else {
        settle_delay(entry.kind) - elapsed(entry.arrived, now)
    }
}

/// The message that reports an edge of the given kind on `sensor`.
pub open spec fn message_of(sensor: AxlePosition, kind: EdgeKind) -> BlockStateMessage {
    classification(EdgeEvent { sensor, kind }).message
}

/// How many entries at the head of `pending` are due at `now`, one after
/// the other. Edges leave the queue in arrival order, so this is the number
/// that leave when the unit moves to `now`.
pub open spec fn due_prefix(pending: Seq<Waiting>, now: u64) -> nat
    decreases pending.len(),
{
    if pending.len() > 0 && is_due(pending[0], now) {
        1 + due_prefix(pending.drop_first(), now)
    } else {
        0
    }
}

/// The state of one unit as a mathematical value.
pub struct UnitModel {
    /// The sensor that the unit serves.
    pub sensor: AxlePosition,
    /// The state last reported: `true` for blocked.
    pub blocked: bool,
    /// The latest time seen.
    pub clock: u64,
    /// The edges not yet reported, oldest first.
    pub pending: Seq<Waiting>,
}

impl UnitModel {
    /// A unit that has seen nothing yet: clear, at time zero.
    pub open spec fn idle(sensor: AxlePosition) -> UnitModel {
        UnitModel { sensor, blocked: false, clock: 0, pending: Seq::empty() }
    }

    /// The invariant of a unit: the waiting edges are in arrival order, none
    /// arrived after the latest time seen, and the oldest was not due by
    /// then.
    pub open spec fn wf(self) -> bool {
        &&& forall|i: int, j: int|
            0 <= i <= j < self.pending.len() ==> self.pending[i].arrived
                <= self.pending[j].arrived
        &&& forall|i: int|
            0 <= i < self.pending.len() ==> (#[trigger] self.pending[i]).arrived <= self.clock
        &&& self.pending.len() > 0 ==> !is_due(self.pending[0], self.clock)
    }

    /// The time that the unit moves to when it is told that it is `now`.
    pub open spec fn effective_time(self, now: u64) -> u64 {
        if now >= self.clock {
            now
        } else {
            self.clock
        }
    }

    /// The number of waiting edges that are reported when the unit moves to
    /// `now`.
    pub open spec fn confirmed(self, now: u64) -> nat {
        due_prefix(self.pending, self.effective_time(now))
    }

    /// The unit after time has moved to `now`: the edges that are due have
    /// left the queue, and the state is that of the last one reported.
    pub open spec fn advance(self, now: u64) -> UnitModel {
        UnitModel {
            sensor: self.sensor,
            blocked: if self.confirmed(now) > 0 {
                self.pending[self.confirmed(now) - 1].kind == EdgeKind::Rising
            } else {
                self.blocked
            },
            clock: self.effective_time(now),
            pending: self.pending.skip(self.confirmed(now) as int),
        }
    }

    /// The messages that moving to `now` gives rise to: one for each edge
    /// that leaves the queue, in arrival order.
    pub open spec fn advance_reports(self, now: u64) -> Seq<BlockStateMessage> {
        Seq::new(self.confirmed(now), |i: int| message_of(self.sensor, self.pending[i].kind))
    }

    /// Whether an edge of the given kind that arrives at the latest time
    /// seen is reported on arrival: a rising edge is, if nothing waits.
    pub open spec fn reported_at_once(self, kind: EdgeKind) -> bool {
        settle_delay(kind) == 0 && self.pending.len() == 0
    }

    /// The unit after an edge that arrives at the latest time seen. An edge
    /// that is reported on arrival sets the state. Any other edge joins the
    /// queue behind what waits; nothing that waits is removed.
    pub open spec fn apply(self, kind: EdgeKind) -> UnitModel {
        if self.reported_at_once(kind) {
            UnitModel {
                sensor: self.sensor,
                blocked: message_of(self.sensor, kind).state,
                clock: self.clock,
                pending: self.pending,
            }
        } else {
            UnitModel {
                sensor: self.sensor,
                blocked: self.blocked,
                clock: self.clock,
                pending: self.pending.push(Waiting { arrived: self.clock, kind }),
            }
        }
    }

    /// The messages that an edge gives rise to on arrival: its own if it is
    /// reported at once, none if it joins the queue.
    pub open spec fn apply_reports(self, kind: EdgeKind) -> Seq<BlockStateMessage> {
        if self.reported_at_once(kind) {
            seq![message_of(self.sensor, kind)]
        } else {
            Seq::empty()
        }
    }

    /// The unit after an edge that arrives at `now`: time moves first, then
    /// the edge is applied.
    pub open spec fn on_edge(self, kind: EdgeKind, now: u64) -> UnitModel {
        self.advance(now).apply(kind)
    }

    /// The messages that an edge arriving at `now` gives rise to, in the
    /// order in which they are to be sent.
    pub open spec fn on_edge_reports(self, kind: EdgeKind, now: u64) -> Seq<BlockStateMessage> {
        self.advance_reports(now) + self.advance(now).apply_reports(kind)
    }

    /// The time to wait at `now` until the oldest waiting edge is due, if
    /// one waits.
    pub open spec fn wait(self, now: u64) -> Option<u64> {
        if self.pending.len() == 0 {
            None
        } else {
            Some(time_to_due(self.pending[0], self.effective_time(now)) as u64)
        }
    }
}

/// Whether an edge has lasted at `now` for as long as its kind asks.
pub fn due(entry: Waiting, now: u64) -> (done: bool)
    ensures
        done == is_due(entry, now),
{
    let passed: u64 = if now >= entry.arrived {
        now - entry.arrived
    } else {
        0
    };
    passed >= delay_for(entry.kind)
}

/// The time still to pass at `now` until an edge is due.
pub fn remaining(entry: Waiting, now: u64) -> (wait: u64)
    ensures
        wait == time_to_due(entry, now),
{
    let passed: u64 = if now >= entry.arrived {
        now - entry.arrived
    } else {
        0
    };
    let delay = delay_for(entry.kind);
    if passed >= delay {
        0
    } else {
        delay - passed
    }
}

/// The processing unit of one sensor.
#[derive(Debug)]
pub struct SensorUnit {
    sensor: AxlePosition,
    blocked: bool,
    clock: u64,
    pending: VecDeque<Waiting>,
}

impl View for SensorUnit {
    type V = UnitModel;

    closed spec fn view(&self) -> UnitModel {
        UnitModel {
            sensor: self.sensor,
            blocked: self.blocked,
            clock: self.clock,
            pending: self.pending@,
        }
    }
}

impl SensorUnit {
    /// A unit for `sensor` that has seen nothing yet.
    pub fn new(sensor: AxlePosition) -> (unit: SensorUnit)
        ensures
            unit@ == UnitModel::idle(sensor),
            unit@.wf(),
    {
        SensorUnit { sensor, blocked: false, clock: 0, pending: VecDeque::new() }
    }

    /// The sensor that this unit serves.
    pub fn sensor(&self) -> (sensor: AxlePosition)
        ensures
            sensor == self@.sensor,
    {
        self.sensor
    }

    /// Whether the state last reported for the sensor is "blocked".
    pub fn is_blocked(&self) -> (blocked: bool)
        ensures
            blocked == self@.blocked,
    {
        self.blocked
    }

    /// The latest time that the unit has seen.
    pub fn clock(&self) -> (clock: u64)
        ensures
            clock == self@.clock,
    {
        self.clock
    }

    /// The number of edges that wait to be reported.
    pub fn pending_edges(&self) -> (count: usize)
        ensures
            count == self@.pending.len(),
    {
        self.pending.len()
    }

    /// The time to wait at `now` until the oldest waiting edge is due;
    /// `None` if no edge waits.
    pub fn wait(&self, now: u64) -> (wait: Option<u64>)
        ensures
            wait == self@.wait(now),
    {
        if self.pending.len() == 0 {
            None
        } else {
            let at: u64 = if now >= self.clock {
                now
            } else {
                self.clock
            };
            Some(remaining(self.pending[0], at))
        }
    }

    /// Moves the unit to `now` and returns the messages that have become
    /// due, one for each edge that leaves the queue, in arrival order.
    pub fn advance(&mut self, now: u64) -> (reports: Vec<BlockStateMessage>)
        ensures
            final(self)@ == old(self)@.advance(now),
            reports@ == old(self)@.advance_reports(now),
            old(self)@.wf() ==> final(self)@.wf(),
    {
        if now > self.clock {
            self.clock = now;
        }
        let mut reports: Vec<BlockStateMessage> = Vec::new();
        while self.pending.len() > 0 && due(self.pending[0], self.clock)
            invariant
                self.sensor == old(self).sensor,
                self.clock == old(self)@.effective_time(now),
                reports@.len() <= old(self).pending@.len(),
                self.blocked == if reports@.len() > 0 {
                    old(self).pending@[reports@.len() - 1].kind == EdgeKind::Rising
                } else {
                    old(self).blocked
                },
                self.pending@ == old(self).pending@.skip(reports@.len() as int),
                reports@.len() + due_prefix(self.pending@, self.clock) == old(self)@.confirmed(
                    now,
                ),
                reports@ == Seq::new(
                    reports@.len(),
                    |i: int| message_of(old(self).sensor, old(self).pending@[i].kind),
                ),
            decreases self.pending@.len(),
        {
            proof {
                assert(self.pending@.drop_first() == old(self).pending@.skip(
                    reports@.len() as int + 1,
                ));
            }
            let entry = self.pending[0];
            let outcome = classify(EdgeEvent { sensor: self.sensor, kind: entry.kind });
            self.pending.pop_front();
            self.blocked = outcome.message.state;
            reports.push(outcome.message);
        }
        proof {
            if old(self)@.wf() {
                lemma_advance_keeps_wf(old(self)@, now);
            }
        }
        reports
    }

    /// Applies an edge that arrives at the latest time seen. A rising edge
    /// is reported at once if nothing waits, and its message is returned.
    /// Any other edge joins the queue and nothing is returned.
    pub fn apply(&mut self, kind: EdgeKind) -> (reports: Vec<BlockStateMessage>)
        ensures
            final(self)@ == old(self)@.apply(kind),
            reports@ == old(self)@.apply_reports(kind),
            old(self)@.wf() ==> final(self)@.wf(),
    {
        let outcome = classify(EdgeEvent { sensor: self.sensor, kind });
        let mut reports: Vec<BlockStateMessage> = Vec::new();
        if outcome.delay_ms == 0 && self.pending.len() == 0 {
            self.blocked = outcome.message.state;
            reports.push(outcome.message);
        } else {
            self.pending.push_back(Waiting { arrived: self.clock, kind });
        }
        proof {
            if old(self)@.wf() {
                lemma_apply_keeps_wf(old(self)@, kind);
            }
        }
        reports
    }

    /// Takes in an edge that arrives at `now`: moves the unit to `now`, then
    /// applies the edge. Returns the messages to send, in order: first one
    /// for each waiting edge that is due by `now`, then that of the edge
    /// itself if it is reported at once.
    pub fn on_edge(&mut self, kind: EdgeKind, now: u64) -> (reports: Vec<BlockStateMessage>)
        ensures
            final(self)@ == old(self)@.on_edge(kind, now),
            reports@ == old(self)@.on_edge_reports(kind, now),
            old(self)@.wf() ==> final(self)@.wf(),
    {
        let mut reports = self.advance(now);
        let mut at_once = self.apply(kind);
        reports.append(&mut at_once);
        reports
    }
}

/// The entries that leave form a head of the queue: each of them is due,
/// and the one after them, if there is one, is not.
pub proof fn lemma_due_prefix(pending: Seq<Waiting>, now: u64)
    ensures
        due_prefix(pending, now) <= pending.len(),
        forall|i: int| 0 <= i < due_prefix(pending, now) ==> is_due(pending[i], now),
        due_prefix(pending, now) < pending.len() ==> !is_due(
            pending[due_prefix(pending, now) as int],
            now,
        ),
    decreases pending.len(),
{
    if pending.len() > 0 && is_due(pending[0], now) {
        let rest = pending.drop_first();
        lemma_due_prefix(rest, now);
        assert forall|i: int| 0 <= i < due_prefix(pending, now) implies is_due(
            pending[i],
            now,
        ) by {
            if i > 0 {
                assert(pending[i] == rest[i - 1]);
            }
        }
    }
}

/// Moving in time keeps a unit well formed.
pub proof fn lemma_advance_keeps_wf(unit: UnitModel, now: u64)
    requires
        unit.wf(),
    ensures
        unit.advance(now).wf(),
{
    // What stays begins with the first entry that is not due.
    lemma_due_prefix(unit.pending, unit.effective_time(now));
}

/// Applying an edge keeps a unit well formed.
pub proof fn lemma_apply_keeps_wf(unit: UnitModel, kind: EdgeKind)
    requires
        unit.wf(),
    ensures
        unit.apply(kind).wf(),
{
}

} // verus!
