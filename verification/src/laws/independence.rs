//! The sensors are independent: what happens on one neither delays nor
//! changes what is reported of another.

use vstd::prelude::*;
use crate::axle::AxlePosition;
use crate::detector::DetectorModel;
use crate::edge::{EdgeEvent, EdgeKind};
use crate::history::{history_seen_by, reports_of, seen_by, Arrival};
use crate::laws::wellformed::{lemma_detector_keeps_wf, lemma_detector_run_keeps_wf};
use crate::laws::timing::{
    lemma_falling_edge_is_reported_after_settle_delay,
    lemma_release_leaves_when_settled,
};
use crate::message::BlockStateMessage;
use crate::unit::{has_settled, lemma_due_prefix, UnitModel, Waiting};

verus! {

/// For a sensor other than the one on which an edge arrives, the arrival is
/// no more than the passing of time: the unit of that sensor ends up where it
/// would without the edge. The unit of the sensor of the edge ends up where
/// it would alone.
pub proof fn lemma_sensors_are_independent(
    detector: DetectorModel,
    event: EdgeEvent,
    now: u64,
    other: AxlePosition,
)
    requires
        other != event.sensor,
    ensures
        detector.on_edge(event, now).unit(other) == detector.unit(other).advance(now),
        detector.on_edge(event, now).unit(event.sensor) == detector.unit(event.sensor).on_edge(
            event.kind,
            now,
        ),
        detector.advance(now).unit(other) == detector.unit(other).advance(now),
{
}

/// Over any history, each unit of the detector goes the way it would go
/// alone, given what it sees of the history: the edges on its own sensor, and
/// the passing of time.
pub proof fn lemma_detector_run_is_unit_run(
    detector: DetectorModel,
    arrivals: Seq<Arrival>,
    sensor: AxlePosition,
)
    ensures
        detector.run(arrivals).unit(sensor) == detector.unit(sensor).run(
            history_seen_by(sensor, arrivals),
        ),
    decreases arrivals.len(),
{
    if arrivals.len() > 0 {
        lemma_detector_run_is_unit_run(detector, arrivals.drop_last(), sensor);
        assert(history_seen_by(sensor, arrivals).drop_last() == history_seen_by(
            sensor,
            arrivals.drop_last(),
        ));
    }
}

/// Filtering keeps a sequence whose every member passes, and empties one of
/// which none does.
proof fn lemma_filter_all_or_none(
    reports: Seq<BlockStateMessage>,
    pred: spec_fn(BlockStateMessage) -> bool,
)
    ensures
        (forall|i: int| 0 <= i < reports.len() ==> pred(reports[i])) ==> reports.filter(pred)
            == reports,
        (forall|i: int| 0 <= i < reports.len() ==> !pred(reports[i])) ==> reports.filter(pred)
            == Seq::<BlockStateMessage>::empty(),
    decreases reports.len(),
{
    reveal(Seq::filter);
    if reports.len() > 0 {
        lemma_filter_all_or_none(reports.drop_last(), pred);
        assert(reports.drop_last().push(reports.last()) == reports);
    }
}

/// Of the messages of a unit, those that speak of `sensor` are all of them
/// if the unit serves `sensor`, and none if it serves another.
proof fn lemma_reports_of_unit_reports(
    sensor: AxlePosition,
    unit: UnitModel,
    now: u64,
    kind: EdgeKind,
)
    ensures
        reports_of(sensor, unit.advance_reports(now)) == if unit.sensor == sensor {
            unit.advance_reports(now)
        } else {
            Seq::empty()
        },
        reports_of(sensor, unit.apply_reports(kind)) == if unit.sensor == sensor {
            unit.apply_reports(kind)
        } else {
            Seq::empty()
        },
{
    let pred = |message: BlockStateMessage| message.axle_position == sensor.spec_index();
    lemma_filter_all_or_none(unit.advance_reports(now), pred);
    lemma_filter_all_or_none(unit.apply_reports(kind), pred);
}

/// In every turn, the messages of the detector that speak of a sensor are
/// those of the unit of that sensor, in the same order.
pub proof fn lemma_detector_turn_reports_are_unit_reports(
    detector: DetectorModel,
    arrival: Arrival,
    sensor: AxlePosition,
)
    requires
        detector.wf(),
    ensures
        reports_of(sensor, detector.turn_reports(arrival)) == detector.unit(sensor).turn_reports(
            seen_by(sensor, arrival),
        ),
{
    let pred = |message: BlockStateMessage| message.axle_position == sensor.spec_index();
    let now = arrival.at;
    let front = detector.front.advance_reports(now);
    let middle = detector.middle.advance_reports(now);
    let rear = detector.rear.advance_reports(now);
    let kind = match arrival.edge {
        Some(event) => event.kind,
        None => EdgeKind::Falling,
    };
    // Of what is due, the part of this sensor is what its own unit gives.
    lemma_reports_of_unit_reports(sensor, detector.front, now, kind);
    lemma_reports_of_unit_reports(sensor, detector.middle, now, kind);
    lemma_reports_of_unit_reports(sensor, detector.rear, now, kind);
    Seq::filter_distributes_over_add(front, middle, pred);
    Seq::filter_distributes_over_add(front + middle, rear, pred);
    assert(reports_of(sensor, detector.advance_reports(now)) == detector.unit(
        sensor,
    ).advance_reports(now));
    // The message of the edge itself is of this sensor or of none of its.
    if let Some(event) = arrival.edge {
        let moved = detector.advance(now).unit(event.sensor);
        lemma_reports_of_unit_reports(sensor, moved, now, event.kind);
        Seq::filter_distributes_over_add(
            detector.advance_reports(now),
            moved.apply_reports(event.kind),
            pred,
        );
    }
}

/// Over any history, the messages of the detector that speak of a sensor are
/// those that the unit of that sensor would send alone, in the same order,
/// given what it sees of the history: the edges on its own sensor, and the
/// passing of time. What happens on the other sensors neither adds to them,
/// nor takes from them, nor moves them to another turn.
pub proof fn lemma_detector_reports_are_unit_reports(
    detector: DetectorModel,
    arrivals: Seq<Arrival>,
    sensor: AxlePosition,
)
    requires
        detector.wf(),
    ensures
        reports_of(sensor, detector.run_reports(arrivals)) == detector.unit(sensor).run_reports(
            history_seen_by(sensor, arrivals),
        ),
    decreases arrivals.len(),
{
    let pred = |message: BlockStateMessage| message.axle_position == sensor.spec_index();
    if arrivals.len() == 0 {
        lemma_filter_all_or_none(detector.run_reports(arrivals), pred);
    } else {
        let earlier = arrivals.drop_last();
        lemma_detector_reports_are_unit_reports(detector, earlier, sensor);
        lemma_detector_run_is_unit_run(detector, earlier, sensor);
        lemma_detector_run_keeps_wf(detector, earlier);
        lemma_detector_turn_reports_are_unit_reports(
            detector.run(earlier),
            arrivals.last(),
            sensor,
        );
        assert(history_seen_by(sensor, arrivals).drop_last() == history_seen_by(sensor, earlier));
        Seq::filter_distributes_over_add(
            detector.run_reports(earlier),
            detector.run(earlier).turn_reports(arrivals.last()),
            pred,
        );
    }
}

/// A release that waits on one sensor does not hold up another sensor. Let a
/// falling edge arrive on `released`, and then a rising edge on `blocked`,
/// another sensor on which nothing waits by then. The rising edge is reported
/// in the turn in which it arrives, whatever waits on `released`. The falling
/// edge goes on waiting if it has not settled by then, and it has been
/// reported when time has moved to where it has: either in the turn of the
/// rising edge or in the move to `later`.
pub proof fn lemma_waiting_release_does_not_delay_other_sensor(
    detector: DetectorModel,
    released: AxlePosition,
    blocked: AxlePosition,
    fell: u64,
    rose: u64,
    later: u64,
)
    requires
        detector.wf(),
        released != blocked,
        detector.unit(blocked).advance(fell).advance(rose).pending.len() == 0,
    ensures
        ({
            let falling = EdgeEvent { sensor: released, kind: EdgeKind::Falling };
            let rising = EdgeEvent { sensor: blocked, kind: EdgeKind::Rising };
            let first = detector.on_edge(falling, fell);
            let second = first.on_edge(rising, rose);
            let arrived = detector.effective_time(fell);
            let clear = BlockStateMessage::report(released, false);
            &&& first.on_edge_reports(rising, rose).last() == BlockStateMessage::report(
                blocked,
                true,
            )
            &&& second.unit(blocked).blocked
            &&& !has_settled(arrived, first.effective_time(rose)) ==> {
                &&& second.unit(released).pending.len() > 0
                &&& second.unit(released).pending.last() == Waiting {
                    arrived,
                    kind: EdgeKind::Falling,
                }
            }
            &&& has_settled(arrived, second.effective_time(later)) ==> {
                &&& second.advance(later).unit(released).pending.len() == 0
                &&& !second.advance(later).unit(released).blocked
                &&& first.on_edge_reports(rising, rose).contains(clear)
                    || second.advance_reports(later).contains(clear)
            }
        }),
{
    let falling = EdgeEvent { sensor: released, kind: EdgeKind::Falling };
    let rising = EdgeEvent { sensor: blocked, kind: EdgeKind::Rising };
    let first = detector.on_edge(falling, fell);
    let second = first.on_edge(rising, rose);
    let arrived = detector.effective_time(fell);
    let clear = BlockStateMessage::report(released, false);
    lemma_detector_keeps_wf(detector, falling, fell);
    lemma_detector_keeps_wf(first, rising, rose);
    // To the unit of `released` the rising edge on the other sensor is a
    // move in time.
    let unit = detector.unit(released);
    let waiting = unit.on_edge(EdgeKind::Falling, fell);
    let moved = waiting.advance(rose);
    assert(first.unit(released) == waiting);
    assert(second.unit(released) == moved);
    assert(first.unit(blocked) == detector.unit(blocked).advance(fell));
    lemma_falling_edge_is_reported_after_settle_delay(unit, fell, rose);
    if has_settled(arrived, second.effective_time(later)) {
        if has_settled(arrived, first.effective_time(rose)) {
            // Due in the turn of the rising edge, as the last of its sensor.
            let mine = waiting.advance_reports(rose);
            assert(mine[mine.len() - 1] == clear);
            lemma_part_of_advance_reports(first, rose, released, mine.len() - 1);
            let due = first.advance_reports(rose);
            let k = choose|k: int| 0 <= k < due.len() && due[k] == clear;
            assert(first.on_edge_reports(rising, rose)[k] == clear);
        } else {
            // Still the youngest in the queue, and due in the move to `later`.
            let at = moved.effective_time(later);
            lemma_due_prefix(moved.pending, at);
            lemma_release_leaves_when_settled(moved.pending, at, moved.pending.len() - 1);
            let mine = moved.advance_reports(later);
            assert(mine[mine.len() - 1] == clear);
            lemma_part_of_advance_reports(second, later, released, mine.len() - 1);
        }
    }
}

/// What is due for one sensor is among what is due for the detector.
proof fn lemma_part_of_advance_reports(
    detector: DetectorModel,
    now: u64,
    sensor: AxlePosition,
    i: int,
)
    requires
        0 <= i < detector.unit(sensor).advance_reports(now).len(),
    ensures
        detector.advance_reports(now).contains(detector.unit(sensor).advance_reports(now)[i]),
{
    let front = detector.front.advance_reports(now);
    let middle = detector.middle.advance_reports(now);
    let rear = detector.rear.advance_reports(now);
    let all = detector.advance_reports(now);
    match sensor {
        AxlePosition::Front => {
            assert(all[i] == front[i]);
        },
        AxlePosition::Middle => {
            assert(all[front.len() + i] == middle[i]);
        },
        AxlePosition::Rear => {
            assert(all[front.len() + middle.len() + i] == rear[i]);
        },
    }
}

} // verus!
