//! The detector: the three sensor units side by side.
//!
//! The detector dispatches each edge to the unit of its sensor and moves all
//! three units in time together. The units stay independent: an edge on one
//! sensor changes nothing that concerns another.

use vstd::prelude::*;
use crate::axle::AxlePosition;
use crate::edge::{EdgeEvent, EdgeKind};
use crate::message::BlockStateMessage;
use crate::unit::{SensorUnit, UnitModel};

verus! {

/// The sooner of two waits, where `None` stands for "nothing to wait for".
pub open spec fn sooner(a: Option<u64>, b: Option<u64>) -> Option<u64> {
    match (a, b) {
        (None, _) => b,
        (_, None) => a,
        (Some(x), Some(y)) => if x <= y {
            a
        } else {
            b
        },
    }
}

/// The state of the detector as a mathematical value.
pub struct DetectorModel {
    pub front: UnitModel,
    pub middle: UnitModel,
    pub rear: UnitModel,
}

impl DetectorModel {
    /// The detector at start-up: every sensor clear, nothing waiting.
    pub open spec fn initial() -> DetectorModel {
        DetectorModel {
            front: UnitModel::idle(AxlePosition::Front),
            middle: UnitModel::idle(AxlePosition::Middle),
            rear: UnitModel::idle(AxlePosition::Rear),
        }
    }

    /// The unit that serves `sensor`.
    pub open spec fn unit(self, sensor: AxlePosition) -> UnitModel {
        match sensor {
            AxlePosition::Front => self.front,
            AxlePosition::Middle => self.middle,
            AxlePosition::Rear => self.rear,
        }
    }

    /// The invariant of the detector: each unit serves its own sensor, is
    /// well formed, and has seen the same time as the others.
    pub open spec fn wf(self) -> bool {
        &&& self.front.sensor == AxlePosition::Front
        &&& self.middle.sensor == AxlePosition::Middle
        &&& self.rear.sensor == AxlePosition::Rear
        &&& self.front.wf()
        &&& self.middle.wf()
        &&& self.rear.wf()
        &&& self.front.clock == self.middle.clock == self.rear.clock
    }

    /// The latest time that the detector has seen.
    pub open spec fn clock(self) -> u64 {
        self.front.clock
    }

    /// The time that the detector moves to when it is told that it is `now`.
    pub open spec fn effective_time(self, now: u64) -> u64 {
        self.front.effective_time(now)
    }

    /// The detector after time has moved to `now` for every unit.
    pub open spec fn advance(self, now: u64) -> DetectorModel {
        DetectorModel {
            front: self.front.advance(now),
            middle: self.middle.advance(now),
            rear: self.rear.advance(now),
        }
    }

    /// The messages that moving to `now` gives rise to: those of the front
    /// unit, then those of the middle unit, then those of the rear unit.
    pub open spec fn advance_reports(self, now: u64) -> Seq<BlockStateMessage> {
        self.front.advance_reports(now) + self.middle.advance_reports(now)
            + self.rear.advance_reports(now)
    }

    /// The detector after `event` has been applied to the unit of its sensor.
    pub open spec fn apply(self, event: EdgeEvent) -> DetectorModel {
        match event.sensor {
            AxlePosition::Front => DetectorModel { front: self.front.apply(event.kind), ..self },
            AxlePosition::Middle => DetectorModel {
                middle: self.middle.apply(event.kind),
                ..self
            },
            AxlePosition::Rear => DetectorModel { rear: self.rear.apply(event.kind), ..self },
        }
    }

    /// The detector after `event` has arrived at `now`: time moves for every
    /// unit, then the edge is applied to the unit of its sensor.
    pub open spec fn on_edge(self, event: EdgeEvent, now: u64) -> DetectorModel {
        self.advance(now).apply(event)
    }

    /// The messages that `event` arriving at `now` gives rise to: first what
    /// has become due by `now`, then what the edge itself calls for.
    pub open spec fn on_edge_reports(self, event: EdgeEvent, now: u64) -> Seq<BlockStateMessage> {
        self.advance_reports(now) + self.advance(now).unit(event.sensor).apply_reports(
            event.kind,
        )
    }

    /// The time to wait at `now` until the next message becomes due; `None`
    /// if no edge waits on any sensor.
    pub open spec fn wait(self, now: u64) -> Option<u64> {
        sooner(sooner(self.front.wait(now), self.middle.wait(now)), self.rear.wait(now))
    }
}

/// The detector for the three axle sensors.
#[derive(Debug)]
pub struct Detector {
    front: SensorUnit,
    middle: SensorUnit,
    rear: SensorUnit,
}

impl View for Detector {
    type V = DetectorModel;

    closed spec fn view(&self) -> DetectorModel {
        DetectorModel { front: self.front@, middle: self.middle@, rear: self.rear@ }
    }
}

impl Detector {
    /// A detector at start-up.
    pub fn new() -> (detector: Detector)
        ensures
            detector@ == DetectorModel::initial(),
            detector@.wf(),
    {
        Detector {
            front: SensorUnit::new(AxlePosition::Front),
            middle: SensorUnit::new(AxlePosition::Middle),
            rear: SensorUnit::new(AxlePosition::Rear),
        }
    }

    /// Whether the state last reported for `sensor` is "blocked".
    pub fn is_blocked(&self, sensor: AxlePosition) -> (blocked: bool)
        ensures
            blocked == self@.unit(sensor).blocked,
    {
        match sensor {
            AxlePosition::Front => self.front.is_blocked(),
            AxlePosition::Middle => self.middle.is_blocked(),
            AxlePosition::Rear => self.rear.is_blocked(),
        }
    }

    /// The number of edges of `sensor` that wait to be reported.
    pub fn pending_edges(&self, sensor: AxlePosition) -> (count: usize)
        ensures
            count == self@.unit(sensor).pending.len(),
    {
        match sensor {
            AxlePosition::Front => self.front.pending_edges(),
            AxlePosition::Middle => self.middle.pending_edges(),
            AxlePosition::Rear => self.rear.pending_edges(),
        }
    }

    /// The time to wait at `now` until the next message becomes due; `None`
    /// if no edge waits on any sensor.
    pub fn next_wait(&self, now: u64) -> (wait: Option<u64>)
        ensures
            wait == self@.wait(now),
    {
        let first = pick_sooner(self.front.wait(now), self.middle.wait(now));
        pick_sooner(first, self.rear.wait(now))
    }

    /// Moves every unit to `now` and returns the messages that have become
    /// due: those of the front sensor, then of the middle, then of the rear
    /// one, each in arrival order.
    pub fn advance(&mut self, now: u64) -> (reports: Vec<BlockStateMessage>)
        ensures
            final(self)@ == old(self)@.advance(now),
            reports@ == old(self)@.advance_reports(now),
            old(self)@.wf() ==> final(self)@.wf(),
    {
        let mut reports = self.front.advance(now);
        let mut middle = self.middle.advance(now);
        let mut rear = self.rear.advance(now);
        reports.append(&mut middle);
        reports.append(&mut rear);
        reports
    }

    /// Takes in `event`, which arrives at `now`. Returns the messages to
    /// publish, in order: what has become due by `now` on any sensor, then
    /// "blocked" for the sensor of the event if the edge is a rising one
    /// and nothing of that sensor still waits. A rising edge that arrives
    /// while a release of its sensor waits joins the queue behind it.
    pub fn on_edge(&mut self, event: EdgeEvent, now: u64) -> (reports: Vec<BlockStateMessage>)
        ensures
            final(self)@ == old(self)@.on_edge(event, now),
            reports@ == old(self)@.on_edge_reports(event, now),
            old(self)@.wf() ==> final(self)@.wf(),
            old(self)@.wf() && event.kind == EdgeKind::Rising && old(self)@.advance(now).unit(
                event.sensor,
            ).pending.len() == 0 ==> reports@.len() > 0 && reports@.last()
                == BlockStateMessage::report(event.sensor, true),
    {
        let mut reports = self.advance(now);
        let mut at_once = match event.sensor {
            AxlePosition::Front => self.front.apply(event.kind),
            AxlePosition::Middle => self.middle.apply(event.kind),
            AxlePosition::Rear => self.rear.apply(event.kind),
        };
        reports.append(&mut at_once);
        reports
    }
}

/// The sooner of two waits.
pub fn pick_sooner(a: Option<u64>, b: Option<u64>) -> (wait: Option<u64>)
    ensures
        wait == sooner(a, b),
{
    match (a, b) {
        (None, _) => b,
        (_, None) => a,
        (Some(x), Some(y)) => if x <= y {
            a
        } else {
            b
        },
    }
}

} // verus!
