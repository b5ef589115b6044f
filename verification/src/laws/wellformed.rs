//! The invariant holds from start-up on and is never broken, in the event
//! loop as over any history.

use vstd::prelude::*;
use crate::axle::AxlePosition;
use crate::detector::DetectorModel;
use crate::edge::{EdgeEvent, EdgeKind};
use crate::history::{Arrival, Turn};
use crate::pipeline::{step_next, step_reports, step_state, LoopEvent, Next};
use crate::unit::{lemma_advance_keeps_wf, lemma_apply_keeps_wf, UnitModel};

verus! {

/// An edge that arrives at any time keeps a unit well formed, and the unit
/// ends up at the time at which the edge took effect.
pub proof fn lemma_unit_keeps_wf(unit: UnitModel, kind: EdgeKind, now: u64)
    requires
        unit.wf(),
    ensures
        unit.on_edge(kind, now).wf(),
        unit.on_edge(kind, now).clock == unit.effective_time(now),
        unit.on_edge(kind, now).sensor == unit.sensor,
{
    lemma_advance_keeps_wf(unit, now);
    lemma_apply_keeps_wf(unit.advance(now), kind);
}

/// Neither the passing of time nor an edge breaks the invariant of the
/// detector.
pub proof fn lemma_detector_keeps_wf(detector: DetectorModel, event: EdgeEvent, now: u64)
    requires
        detector.wf(),
    ensures
        detector.advance(now).wf(),
        detector.on_edge(event, now).wf(),
        detector.advance(now).clock() == detector.effective_time(now),
        detector.on_edge(event, now).clock() == detector.effective_time(now),
{
    lemma_advance_keeps_wf(detector.front, now);
    lemma_advance_keeps_wf(detector.middle, now);
    lemma_advance_keeps_wf(detector.rear, now);
    lemma_apply_keeps_wf(detector.advance(now).unit(event.sensor), event.kind);
}

/// No history breaks the invariant of a unit, and time never goes back.
pub proof fn lemma_unit_run_keeps_wf(unit: UnitModel, turns: Seq<Turn>)
    requires
        unit.wf(),
    ensures
        unit.run(turns).wf(),
        unit.run(turns).sensor == unit.sensor,
        unit.run(turns).clock >= unit.clock,
    decreases turns.len(),
{
    if turns.len() > 0 {
        lemma_unit_run_keeps_wf(unit, turns.drop_last());
        let before = unit.run(turns.drop_last());
        lemma_advance_keeps_wf(before, turns.last().at);
        if let Some(kind) = turns.last().edge {
            lemma_apply_keeps_wf(before.advance(turns.last().at), kind);
        }
    }
}

/// No history breaks the invariant of the detector, and time never goes
/// back.
pub proof fn lemma_detector_run_keeps_wf(detector: DetectorModel, arrivals: Seq<Arrival>)
    requires
        detector.wf(),
    ensures
        detector.run(arrivals).wf(),
        detector.run(arrivals).clock() >= detector.clock(),
    decreases arrivals.len(),
{
    if arrivals.len() > 0 {
        lemma_detector_run_keeps_wf(detector, arrivals.drop_last());
        let before = detector.run(arrivals.drop_last());
        let event = match arrivals.last().edge {
            Some(event) => event,
            None => EdgeEvent { sensor: AxlePosition::Front, kind: EdgeKind::Rising },
        };
        lemma_detector_keeps_wf(before, event, arrivals.last().at);
    }
}

/// Every state that the detector reaches from start-up, over any history,
/// is well formed.
pub proof fn lemma_detector_is_wf_from_start_up(arrivals: Seq<Arrival>)
    ensures
        DetectorModel::initial().run(arrivals).wf(),
{
    lemma_detector_run_keeps_wf(DetectorModel::initial(), arrivals);
}

/// A turn of the event loop is a turn of a history: an edge or an elapsed
/// timer moves the detector as the arrival at that time does, and publishes
/// its messages. A failed line changes nothing and publishes nothing. So what
/// holds over every history holds of the detector in the loop.
pub proof fn lemma_step_is_a_turn(detector: DetectorModel, event: LoopEvent, now: u64)
    requires
        detector.wf(),
    ensures
        step_state(detector, event, now).wf(),
        match event {
            LoopEvent::Edge(edge) => {
                let arrival = Arrival { at: now, edge: Some(edge) };
                &&& step_state(detector, event, now) == detector.turn(arrival)
                &&& step_reports(detector, event, now) == detector.turn_reports(arrival)
            },
            LoopEvent::TimerElapsed => {
                let arrival = Arrival { at: now, edge: None };
                &&& step_state(detector, event, now) == detector.turn(arrival)
                &&& step_reports(detector, event, now) == detector.turn_reports(arrival)
            },
            LoopEvent::LineFailed(_) => {
                &&& step_state(detector, event, now) == detector
                &&& step_reports(detector, event, now).len() == 0
                &&& step_next(detector, event, now) matches Next::Abort(fault) && fault.fatal()
            },
        },
{
    let edge = match event {
        LoopEvent::Edge(edge) => edge,
        _ => EdgeEvent { sensor: AxlePosition::Front, kind: EdgeKind::Rising },
    };
    lemma_detector_keeps_wf(detector, edge, now);
}

} // verus!
