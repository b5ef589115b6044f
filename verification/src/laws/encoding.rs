//! The wire encoding of the axle positions.

use vstd::prelude::*;
use crate::axle::AxlePosition;
use crate::detector::DetectorModel;
use crate::edge::{EdgeEvent, EdgeKind};
use crate::message::BlockStateMessage;
use crate::unit::UnitModel;

verus! {

/// The encoding of the positions is fixed: 0 for the front, 1 for the middle,
/// 2 for the rear axle. No two positions share an integer, and a message
/// carries the integer of the sensor that it reports on.
pub proof fn lemma_encoding_is_fixed(a: AxlePosition, b: AxlePosition, state: bool)
    ensures
        AxlePosition::Front.spec_index() == 0,
        AxlePosition::Middle.spec_index() == 1,
        AxlePosition::Rear.spec_index() == 2,
        a.spec_index() == b.spec_index() <==> a == b,
        BlockStateMessage::report(a, state).axle_position == a.spec_index(),
        BlockStateMessage::report(a, state).state == state,
{
}

/// Whatever a unit has seen, and in whatever order edges arrive, every
/// message that it gives rise to carries the integer of its own sensor.
pub proof fn lemma_unit_reports_carry_own_index(unit: UnitModel, kind: EdgeKind, now: u64)
    ensures
        forall|i: int|
            0 <= i < unit.on_edge_reports(kind, now).len() ==> (
            #[trigger] unit.on_edge_reports(kind, now)[i]).axle_position
                == unit.sensor.spec_index(),
        forall|i: int|
            0 <= i < unit.advance_reports(now).len() ==> (#[trigger] unit.advance_reports(
                now,
            )[i]).axle_position == unit.sensor.spec_index(),
{
}

/// Whatever the detector has seen, every message that it gives rise to
/// carries 0, 1 or 2.
pub proof fn lemma_detector_reports_carry_sensor_index(
    detector: DetectorModel,
    event: EdgeEvent,
    now: u64,
)
    requires
        detector.wf(),
    ensures
        forall|i: int|
            0 <= i < detector.on_edge_reports(event, now).len() ==> (
            #[trigger] detector.on_edge_reports(event, now)[i]).axle_position <= 2,
        forall|i: int|
            0 <= i < detector.advance_reports(now).len() ==> (#[trigger] detector.advance_reports(
                now,
            )[i]).axle_position <= 2,
{
}

} // verus!
