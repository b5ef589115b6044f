//! Every edge is accounted for: one message for each, in arrival order, and
//! none is dropped.

use vstd::prelude::*;
use crate::history::{edges_in, kinds_of, messages_for, Turn};
use crate::unit::{lemma_due_prefix, UnitModel};

verus! {

/// In one turn, what is sent and what still waits afterwards are together
/// what waited before and the edge of the turn, in that order.
pub proof fn lemma_turn_reports_in_order(unit: UnitModel, turn: Turn)
    ensures
        unit.turn(turn).sensor == unit.sensor,
        unit.turn_reports(turn) + messages_for(unit.sensor, kinds_of(unit.turn(turn).pending))
            == messages_for(
            unit.sensor,
            kinds_of(unit.pending) + match turn.edge {
                Some(kind) => seq![kind],
                None => Seq::empty(),
            },
        ),
{
    lemma_due_prefix(unit.pending, unit.effective_time(turn.at));
    let arrived = match turn.edge {
        Some(kind) => seq![kind],
        None => Seq::empty(),
    };
    assert(unit.turn_reports(turn) + messages_for(
        unit.sensor,
        kinds_of(unit.turn(turn).pending),
    ) =~= messages_for(unit.sensor, kinds_of(unit.pending) + arrived));
}

/// Over any history of a unit, every edge is reported by exactly one
/// message, in arrival order, and none is dropped: what has been sent,
/// followed by the messages of what still waits, is the messages of what
/// waited at the start followed by those of the edges of the history. No
/// edge removes another from the queue, whatever its kind.
pub proof fn lemma_every_edge_is_reported_in_order(unit: UnitModel, turns: Seq<Turn>)
    ensures
        unit.run(turns).sensor == unit.sensor,
        unit.run_reports(turns) + messages_for(unit.sensor, kinds_of(unit.run(turns).pending))
            == messages_for(unit.sensor, kinds_of(unit.pending) + edges_in(turns)),
        unit.run_reports(turns).len() + unit.run(turns).pending.len() == unit.pending.len()
            + edges_in(turns).len(),
    decreases turns.len(),
{
    let sensor = unit.sensor;
    let whole = messages_for(sensor, kinds_of(unit.pending) + edges_in(turns));
    if turns.len() == 0 {
        assert(unit.run_reports(turns) + messages_for(sensor, kinds_of(unit.pending)) =~= whole);
    } else {
        let earlier = turns.drop_last();
        let before = unit.run(earlier);
        let arrived = match turns.last().edge {
            Some(kind) => seq![kind],
            None => Seq::empty(),
        };
        lemma_every_edge_is_reported_in_order(unit, earlier);
        lemma_turn_reports_in_order(before, turns.last());
        assert(edges_in(turns) =~= edges_in(earlier) + arrived);
        // What had been sent, then what this turn sends and leaves.
        let sent = unit.run_reports(earlier);
        let waited = messages_for(sensor, kinds_of(before.pending));
        let this_turn = messages_for(sensor, kinds_of(before.pending) + arrived);
        assert(this_turn =~= waited + messages_for(sensor, arrived));
        assert(whole =~= (sent + waited) + messages_for(sensor, arrived));
        assert(unit.run_reports(turns) + messages_for(sensor, kinds_of(unit.run(turns).pending))
            =~= sent + this_turn);
    }
}

} // verus!
