//! When a message is sent: a falling edge after the settle delay and not
//! before, a rising edge at once unless an older edge of its sensor waits,
//! and then right behind it.

use vstd::prelude::*;
use crate::axle::AxlePosition;
use crate::classifier::SETTLE_DELAY_MS;
use crate::detector::DetectorModel;
use crate::edge::{EdgeEvent, EdgeKind};
use crate::history::{history_seen_by, reports_of, Arrival, Turn};
use crate::laws::independence::{
    lemma_detector_reports_are_unit_reports,
    lemma_detector_run_is_unit_run,
};
use crate::laws::wellformed::{
    lemma_detector_keeps_wf,
    lemma_detector_run_keeps_wf,
    lemma_unit_keeps_wf,
    lemma_unit_run_keeps_wf,
};
use crate::message::BlockStateMessage;
use crate::unit::{
    due_prefix,
    has_settled,
    is_due,
    lemma_due_prefix,
    message_of,
    UnitModel,
    Waiting,
};

verus! {

/// The number of entries that leave is fixed by what it means: a head of
/// the queue of which every entry is due, followed by one that is not or by
/// nothing.
pub proof fn lemma_due_prefix_is(pending: Seq<Waiting>, now: u64, count: int)
    requires
        0 <= count <= pending.len(),
        forall|i: int| 0 <= i < count ==> is_due(#[trigger] pending[i], now),
        count < pending.len() ==> !is_due(pending[count], now),
    ensures
        due_prefix(pending, now) == count,
    decreases pending.len(),
{
    if count > 0 {
        let rest = pending.drop_first();
        assert(is_due(pending[0], now));
        assert forall|i: int| 0 <= i < count - 1 implies is_due(#[trigger] rest[i], now) by {
            assert(rest[i] == pending[i + 1]);
        }
        lemma_due_prefix_is(rest, now, count - 1);
    }
}

/// In a queue in arrival order, a falling edge leaves exactly when it has
/// settled: all that arrived before it are due by then. So the youngest
/// entry, if it is a falling edge, has left when it has settled, with all the
/// others, and stays while it has not.
pub proof fn lemma_release_leaves_when_settled(pending: Seq<Waiting>, now: u64, place: int)
    requires
        forall|i: int, j: int|
            0 <= i <= j < pending.len() ==> pending[i].arrived <= pending[j].arrived,
        0 <= place < pending.len(),
        pending[place].kind == EdgeKind::Falling,
    ensures
        due_prefix(pending, now) > place <==> has_settled(pending[place].arrived, now),
{
    lemma_due_prefix(pending, now);
    if has_settled(pending[place].arrived, now) && due_prefix(pending, now) <= place {
        // The first entry that stays arrived no later, so it is due as well.
        let stays = due_prefix(pending, now) as int;
        assert(pending[stays].arrived <= pending[place].arrived);
    }
}

/// A rising edge that arrives when no older edge of its sensor waits is
/// reported without delay: "blocked" is the last of the messages that its
/// arrival gives rise to. From then on the unit is blocked and nothing waits.
pub proof fn lemma_rising_edge_is_reported_at_once(unit: UnitModel, now: u64)
    requires
        unit.advance(now).pending.len() == 0,
    ensures
        unit.on_edge_reports(EdgeKind::Rising, now) == unit.advance_reports(now).push(
            BlockStateMessage::report(unit.sensor, true),
        ),
        unit.on_edge_reports(EdgeKind::Rising, now).last() == BlockStateMessage::report(
            unit.sensor,
            true,
        ),
        unit.on_edge(EdgeKind::Rising, now).blocked,
        unit.on_edge(EdgeKind::Rising, now).pending.len() == 0,
{
    assert(unit.on_edge_reports(EdgeKind::Rising, now) == unit.advance_reports(now).push(
        BlockStateMessage::report(unit.sensor, true),
    ));
}

/// The detector reports a rising edge without delay when no older edge of
/// the same sensor waits, whatever waits on the other sensors: "blocked" for
/// the sensor of the edge is the last of the messages of the turn in which
/// the edge arrives.
pub proof fn lemma_detector_reports_rising_edge_at_once(
    detector: DetectorModel,
    sensor: AxlePosition,
    now: u64,
)
    requires
        detector.wf(),
        detector.advance(now).unit(sensor).pending.len() == 0,
    ensures
        ({
            let rising = EdgeEvent { sensor, kind: EdgeKind::Rising };
            &&& detector.on_edge_reports(rising, now) == detector.advance_reports(now).push(
                BlockStateMessage::report(sensor, true),
            )
            &&& detector.on_edge_reports(rising, now).last() == BlockStateMessage::report(
                sensor,
                true,
            )
            &&& detector.on_edge(rising, now).unit(sensor).blocked
            &&& detector.on_edge(rising, now).unit(sensor).pending.len() == 0
        }),
{
    let rising = EdgeEvent { sensor, kind: EdgeKind::Rising };
    assert(detector.on_edge_reports(rising, now) == detector.advance_reports(now).push(
        BlockStateMessage::report(sensor, true),
    ));
}

/// No edge removes a waiting edge. An edge that arrives while another of
/// its sensor waits joins the queue behind it, whatever its kind, and its
/// arrival gives rise to no message of its own. A falling edge joins the
/// queue in any case.
pub proof fn lemma_edge_waits_behind_what_waits(unit: UnitModel, kind: EdgeKind, now: u64)
    requires
        unit.advance(now).pending.len() > 0 || kind == EdgeKind::Falling,
    ensures
        unit.on_edge(kind, now).pending == unit.advance(now).pending.push(
            Waiting { arrived: unit.effective_time(now), kind },
        ),
        unit.on_edge_reports(kind, now) == unit.advance_reports(now),
        unit.on_edge(kind, now).blocked == unit.advance(now).blocked,
{
    assert(unit.on_edge_reports(kind, now) == unit.advance_reports(now));
}

/// A falling edge is reported once it has lasted for the settle delay, and
/// not before. Its arrival gives rise to no message of its own. When time
/// then moves to `later`: if the delay has not passed, the edge still waits;
/// if it has, the edge and all that waited before it have been reported, one
/// message apiece, "clear" is the last of them, and the unit is clear.
pub proof fn lemma_falling_edge_is_reported_after_settle_delay(
    unit: UnitModel,
    now: u64,
    later: u64,
)
    requires
        unit.wf(),
    ensures
        unit.on_edge_reports(EdgeKind::Falling, now) == unit.advance_reports(now),
        ({
            let waiting = unit.on_edge(EdgeKind::Falling, now);
            let arrived = unit.effective_time(now);
            let after = waiting.advance(later);
            let reports = waiting.advance_reports(later);
            &&& waiting.pending.len() > 0
            &&& waiting.pending.last() == Waiting { arrived, kind: EdgeKind::Falling }
            &&& reports.len() + after.pending.len() == waiting.pending.len()
            &&& !has_settled(arrived, waiting.effective_time(later)) ==> {
                &&& after.pending.len() > 0
                &&& after.pending.last() == waiting.pending.last()
            }
            &&& has_settled(arrived, waiting.effective_time(later)) ==> {
                &&& after.pending.len() == 0
                &&& reports.len() == waiting.pending.len()
                &&& reports.last() == BlockStateMessage::report(unit.sensor, false)
                &&& !after.blocked
            }
        }),
{
    let waiting = unit.on_edge(EdgeKind::Falling, now);
    lemma_unit_keeps_wf(unit, EdgeKind::Falling, now);
    lemma_edge_waits_behind_what_waits(unit, EdgeKind::Falling, now);
    // The edge is the youngest in the queue, so it leaves last.
    lemma_due_prefix(waiting.pending, waiting.effective_time(later));
    lemma_release_leaves_when_settled(
        waiting.pending,
        waiting.effective_time(later),
        waiting.pending.len() - 1,
    );
}

/// A rising edge that arrives while a release of its sensor waits is not
/// lost and does not overtake. Let a falling edge arrive, and a rising edge
/// of the same sensor before the falling edge has settled. The rising edge
/// joins the queue right behind the falling edge and nothing is sent for it
/// yet. When time then moves to `later`: if the falling edge has not settled,
/// both still wait; if it has, both have been reported, "clear" first and
/// then "blocked", these are the last two messages, and the unit is blocked.
pub proof fn lemma_rising_edge_follows_waiting_release(
    unit: UnitModel,
    fell: u64,
    rose: u64,
    later: u64,
)
    requires
        unit.wf(),
        !has_settled(
            unit.effective_time(fell),
            unit.on_edge(EdgeKind::Falling, fell).effective_time(rose),
        ),
    ensures
        ({
            let first = unit.on_edge(EdgeKind::Falling, fell);
            let second = first.on_edge(EdgeKind::Rising, rose);
            let release = Waiting { arrived: unit.effective_time(fell), kind: EdgeKind::Falling };
            let block = Waiting { arrived: first.effective_time(rose), kind: EdgeKind::Rising };
            let after = second.advance(later);
            let reports = second.advance_reports(later);
            let count = second.pending.len() as int;
            &&& first.on_edge_reports(EdgeKind::Rising, rose) == first.advance_reports(rose)
            &&& count >= 2
            &&& second.pending[count - 2] == release
            &&& second.pending[count - 1] == block
            &&& !has_settled(release.arrived, second.effective_time(later)) ==> {
                &&& after.pending.len() >= 2
                &&& after.pending[after.pending.len() - 2] == release
                &&& after.pending[after.pending.len() - 1] == block
            }
            &&& has_settled(release.arrived, second.effective_time(later)) ==> {
                &&& after.pending.len() == 0
                &&& reports.len() == count
                &&& reports[count - 2] == BlockStateMessage::report(unit.sensor, false)
                &&& reports[count - 1] == BlockStateMessage::report(unit.sensor, true)
                &&& after.blocked
            }
        }),
{
    let first = unit.on_edge(EdgeKind::Falling, fell);
    let second = first.on_edge(EdgeKind::Rising, rose);
    let count = second.pending.len() as int;
    lemma_unit_keeps_wf(unit, EdgeKind::Falling, fell);
    lemma_unit_keeps_wf(first, EdgeKind::Rising, rose);
    lemma_falling_edge_is_reported_after_settle_delay(unit, fell, rose);
    lemma_edge_waits_behind_what_waits(first, EdgeKind::Rising, rose);
    let at = second.effective_time(later);
    lemma_due_prefix(second.pending, at);
    lemma_release_leaves_when_settled(second.pending, at, count - 2);
    if has_settled(unit.effective_time(fell), at) {
        // The rising edge behind the release is due as soon as it is first.
        assert(is_due(second.pending[count - 1], at));
        assert(due_prefix(second.pending, at) == count);
    }
}

/// The queue of a unit is served in arrival order, over any history. Of the
/// edges that wait at the start, those have been reported by the end that
/// form the head of the queue that is due by then: their messages are the
/// first ones sent, in the same order. The others still wait, in the same
/// order, before any edge that has arrived since.
pub proof fn lemma_queue_is_served_in_order(unit: UnitModel, turns: Seq<Turn>)
    requires
        unit.wf(),
    ensures
        ({
            let end = unit.run(turns);
            let reports = unit.run_reports(turns);
            let served = due_prefix(unit.pending, end.clock);
            &&& served == if reports.len() <= unit.pending.len() {
                reports.len()
            } else {
                unit.pending.len()
            }
            &&& end.pending.len() >= unit.pending.len() - served
            &&& forall|q: int|
                0 <= q < served ==> reports[q] == message_of(
                    unit.sensor,
                    (#[trigger] unit.pending[q]).kind,
                )
            &&& forall|q: int|
                served <= q < unit.pending.len() ==> end.pending[q - served]
                    == #[trigger] unit.pending[q]
        }),
    decreases turns.len(),
{
    let count = unit.pending.len();
    if turns.len() == 0 {
        lemma_due_prefix_is(unit.pending, unit.clock, 0);
    } else {
        let earlier = turns.drop_last();
        let last = turns.last();
        lemma_queue_is_served_in_order(unit, earlier);
        lemma_unit_run_keeps_wf(unit, earlier);
        let before = unit.run(earlier);
        let sent = unit.run_reports(earlier);
        let at = before.effective_time(last.at);
        let leave = due_prefix(before.pending, at);
        let due = before.advance_reports(last.at);
        let moved = before.advance(last.at);
        let end = unit.run(turns);
        let reports = unit.run_reports(turns);
        lemma_due_prefix(unit.pending, before.clock);
        lemma_due_prefix(before.pending, at);
        assert(end.clock == at);
        assert(end.pending.len() >= moved.pending.len());
        assert(forall|i: int| 0 <= i < moved.pending.len() ==> end.pending[i] == moved.pending[i]);
        if sent.len() >= count {
            // All had left before this turn.
            assert(reports.len() >= sent.len());
            lemma_due_prefix_is(unit.pending, at, count as int);
            assert forall|q: int| 0 <= q < count implies reports[q] == message_of(
                unit.sensor,
                (#[trigger] unit.pending[q]).kind,
            ) by {
                assert(reports[q] == sent[q]);
            }
        } else {
            // What is left of the queue stands at the head of what waits.
            let gone = sent.len() as int;
            let served: int = if gone + leave <= count {
                gone + leave
            } else {
                count as int
            };
            assert forall|i: int| 0 <= i < served implies is_due(
                #[trigger] unit.pending[i],
                at,
            ) by {
                if i >= gone {
                    assert(before.pending[i - gone] == unit.pending[i]);
                }
            }
            if served < count {
                assert(before.pending[leave as int] == unit.pending[served]);
            }
            lemma_due_prefix_is(unit.pending, at, served);
            assert(reports.len() >= gone + leave);
            if gone + leave < count {
                // Something of the queue stays, so the edge of this turn,
                // if there is one, joins behind it.
                assert(moved.pending.len() > 0);
                assert(reports == sent + due);
            }
            assert forall|q: int| 0 <= q < served implies reports[q] == message_of(
                unit.sensor,
                (#[trigger] unit.pending[q]).kind,
            ) by {
                if q < gone {
                    assert(reports[q] == sent[q]);
                } else {
                    assert(reports[q] == due[q - gone]);
                    assert(before.pending[q - gone] == unit.pending[q]);
                }
            }
            assert forall|q: int| served <= q < count implies end.pending[q - served]
                == #[trigger] unit.pending[q] by {
                assert(moved.pending[q - served] == before.pending[q - gone]);
            }
        }
    }
}

/// A falling edge is reported exactly once, and exactly when it has
/// settled, whatever arrives after it.
///
/// Let a falling edge arrive at a unit where `ahead` older edges still
/// wait, and let any history follow. The messages come in arrival order, so
/// the message of this edge is number `ahead + 1` of that history, and it is
/// "clear". It has been sent by the end of the history if and only if the
/// settle delay has passed by then; until then the edge waits in the queue,
/// behind the older ones that are left.
///
/// A history may end anywhere, so this fixes the turn in which the message
/// is sent: the first one whose time is the settle delay or more after the
/// arrival.
pub proof fn lemma_release_is_reported_once_when_settled(
    unit: UnitModel,
    now: u64,
    turns: Seq<Turn>,
)
    requires
        unit.wf(),
    ensures
        ({
            let waiting = unit.on_edge(EdgeKind::Falling, now);
            let release = Waiting { arrived: unit.effective_time(now), kind: EdgeKind::Falling };
            let ahead = waiting.pending.len() - 1;
            let end = waiting.run(turns);
            let reports = waiting.run_reports(turns);
            &&& ahead >= 0
            &&& waiting.pending[ahead] == release
            &&& reports.len() > ahead <==> has_settled(release.arrived, end.clock)
            &&& reports.len() > ahead ==> reports[ahead] == BlockStateMessage::report(
                unit.sensor,
                false,
            )
            &&& reports.len() <= ahead ==> end.pending[ahead - reports.len()] == release
        }),
{
    let waiting = unit.on_edge(EdgeKind::Falling, now);
    let ahead = waiting.pending.len() - 1;
    lemma_unit_keeps_wf(unit, EdgeKind::Falling, now);
    lemma_edge_waits_behind_what_waits(unit, EdgeKind::Falling, now);
    lemma_queue_is_served_in_order(waiting, turns);
    lemma_release_leaves_when_settled(waiting.pending, waiting.run(turns).clock, ahead);
    assert(waiting.pending[ahead].kind == EdgeKind::Falling);
}

/// The same of the detector as a whole. Let a falling edge arrive on
/// `sensor`, where `ahead` older edges of that sensor still wait, and let any
/// history follow, whatever it holds for any sensor. Then of the messages of
/// that history that speak of `sensor`, number `ahead + 1` is the message of
/// this edge, and it is "clear"; it has been sent by the end of the history
/// if and only if the settle delay has passed by then.
pub proof fn lemma_detector_reports_release_once_when_settled(
    detector: DetectorModel,
    sensor: AxlePosition,
    now: u64,
    arrivals: Seq<Arrival>,
)
    requires
        detector.wf(),
    ensures
        ({
            let falling = EdgeEvent { sensor, kind: EdgeKind::Falling };
            let waiting = detector.on_edge(falling, now);
            let release = Waiting {
                arrived: detector.effective_time(now),
                kind: EdgeKind::Falling,
            };
            let ahead = waiting.unit(sensor).pending.len() - 1;
            let end = waiting.run(arrivals);
            let reports = reports_of(sensor, waiting.run_reports(arrivals));
            &&& ahead >= 0
            &&& waiting.unit(sensor).pending[ahead] == release
            &&& reports.len() > ahead <==> has_settled(release.arrived, end.clock())
            &&& reports.len() > ahead ==> reports[ahead] == BlockStateMessage::report(
                sensor,
                false,
            )
            &&& reports.len() <= ahead ==> end.unit(sensor).pending[ahead - reports.len()]
                == release
        }),
{
    let falling = EdgeEvent { sensor, kind: EdgeKind::Falling };
    let waiting = detector.on_edge(falling, now);
    lemma_detector_keeps_wf(detector, falling, now);
    lemma_detector_run_keeps_wf(waiting, arrivals);
    lemma_detector_run_is_unit_run(waiting, arrivals, sensor);
    lemma_detector_reports_are_unit_reports(waiting, arrivals, sensor);
    lemma_release_is_reported_once_when_settled(
        detector.unit(sensor),
        now,
        history_seen_by(sensor, arrivals),
    );
}

/// The wait that a unit asks for is exact. With nothing waiting it asks for
/// none, and no message comes at any time. Otherwise a message comes when
/// time has moved on by the wait at least, and none comes before.
pub proof fn lemma_unit_wait_is_exact(unit: UnitModel, now: u64, later: u64)
    requires
        unit.wf(),
        later >= unit.effective_time(now),
    ensures
        unit.wait(now) is None <==> unit.pending.len() == 0,
        unit.wait(now) is None ==> unit.advance_reports(later).len() == 0,
        unit.wait(now) matches Some(wait) ==> (unit.advance_reports(later).len() > 0 <==> later
            - unit.effective_time(now) >= wait),
{
    // The oldest entry was not due at the latest time seen, so the wait is
    // what is left of its delay.
    if unit.pending.len() > 0 {
        assert(!is_due(unit.pending[0], unit.clock));
    }
}

/// The wait that the detector asks for is exact. With nothing waiting on any
/// sensor it asks for none, and no message comes at any time. Otherwise a
/// message comes when time has moved on by the wait at least, and none comes
/// before.
pub proof fn lemma_wait_is_exact(detector: DetectorModel, now: u64, later: u64)
    requires
        detector.wf(),
        later >= detector.effective_time(now),
    ensures
        detector.wait(now) is None ==> detector.advance_reports(later).len() == 0,
        detector.wait(now) matches Some(wait) ==> (detector.advance_reports(later).len() > 0
            <==> later - detector.effective_time(now) >= wait),
{
    lemma_unit_wait_is_exact(detector.front, now, later);
    lemma_unit_wait_is_exact(detector.middle, now, later);
    lemma_unit_wait_is_exact(detector.rear, now, later);
}

/// After a turn nothing that stands first in a queue is due. So the wait
/// that follows a turn, asked for at the time of the turn, is above zero and
/// no more than the settle delay: the loop never spins on a timer that has
/// already run out.
pub proof fn lemma_wait_after_turn_is_positive(detector: DetectorModel, arrival: Arrival)
    requires
        detector.wf(),
    ensures
        detector.turn(arrival).wait(arrival.at) matches Some(wait) ==> 0 < wait
            <= SETTLE_DELAY_MS,
{
    let event = match arrival.edge {
        Some(event) => event,
        None => EdgeEvent { sensor: AxlePosition::Front, kind: EdgeKind::Rising },
    };
    lemma_detector_keeps_wf(detector, event, arrival.at);
}

} // verus!
