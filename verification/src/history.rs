//! Histories: what the detector and its units do over a run of turns.
//!
//! Nothing here is executed. A history is the means to say what holds of a
//! message from the arrival of its edge to the turn in which it is sent.

use vstd::prelude::*;
use crate::axle::AxlePosition;
use crate::detector::DetectorModel;
use crate::edge::{EdgeEvent, EdgeKind};
use crate::message::BlockStateMessage;
use crate::unit::{message_of, UnitModel, Waiting};

verus! {

/// One turn of the loop as the detector sees it: the time, and the edge that
/// arrived, if the turn was not a mere passing of time.
pub struct Arrival {
    pub at: u64,
    pub edge: Option<EdgeEvent>,
}

/// One turn of the loop as one unit sees it: the time, and the edge on its
/// own sensor, if there was one.
pub struct Turn {
    pub at: u64,
    pub edge: Option<EdgeKind>,
}

/// What the unit of `sensor` sees of a turn of the detector: an edge on
/// another sensor is to it a passing of time.
pub open spec fn seen_by(sensor: AxlePosition, arrival: Arrival) -> Turn {
    Turn {
        at: arrival.at,
        edge: match arrival.edge {
            Some(event) => if event.sensor == sensor {
                Some(event.kind)
            } else {
                None
            },
            None => None,
        },
    }
}

/// What each turn of a history of the detector looks like to the unit of
/// `sensor`.
pub open spec fn history_seen_by(sensor: AxlePosition, arrivals: Seq<Arrival>) -> Seq<Turn> {
    arrivals.map_values(|arrival: Arrival| seen_by(sensor, arrival))
}

/// The messages among `reports` that speak of `sensor`, in their order.
pub open spec fn reports_of(sensor: AxlePosition, reports: Seq<BlockStateMessage>) -> Seq<
    BlockStateMessage,
> {
    reports.filter(|message: BlockStateMessage| message.axle_position == sensor.spec_index())
}

/// The edges that arrive in a history of one unit, in arrival order.
pub open spec fn edges_in(turns: Seq<Turn>) -> Seq<EdgeKind>
    decreases turns.len(),
{
    if turns.len() == 0 {
        Seq::empty()
    } else {
        match turns.last().edge {
            Some(kind) => edges_in(turns.drop_last()).push(kind),
            None => edges_in(turns.drop_last()),
        }
    }
}

/// The kinds of the edges in a queue, oldest first.
pub open spec fn kinds_of(pending: Seq<Waiting>) -> Seq<EdgeKind> {
    pending.map_values(|entry: Waiting| entry.kind)
}

/// The messages that report the given edges of `sensor`, one for each, in
/// the same order.
pub open spec fn messages_for(sensor: AxlePosition, kinds: Seq<EdgeKind>) -> Seq<
    BlockStateMessage,
> {
    kinds.map_values(|kind: EdgeKind| message_of(sensor, kind))
}

impl UnitModel {
    /// The unit after one turn.
    pub open spec fn turn(self, turn: Turn) -> UnitModel {
        match turn.edge {
            Some(kind) => self.on_edge(kind, turn.at),
            None => self.advance(turn.at),
        }
    }

    /// The messages of one turn.
    pub open spec fn turn_reports(self, turn: Turn) -> Seq<BlockStateMessage> {
        match turn.edge {
            Some(kind) => self.on_edge_reports(kind, turn.at),
            None => self.advance_reports(turn.at),
        }
    }

    /// The unit after a history of turns.
    pub open spec fn run(self, turns: Seq<Turn>) -> UnitModel
        decreases turns.len(),
    {
        if turns.len() == 0 {
            self
        } else {
            self.run(turns.drop_last()).turn(turns.last())
        }
    }

    /// The messages of a history of turns, in the order in which they are
    /// sent.
    pub open spec fn run_reports(self, turns: Seq<Turn>) -> Seq<BlockStateMessage>
        decreases turns.len(),
    {
        if turns.len() == 0 {
            Seq::empty()
        } else {
            self.run_reports(turns.drop_last()) + self.run(turns.drop_last()).turn_reports(
                turns.last(),
            )
        }
    }
}

impl DetectorModel {
    /// The detector after one turn.
    pub open spec fn turn(self, arrival: Arrival) -> DetectorModel {
        match arrival.edge {
            Some(event) => self.on_edge(event, arrival.at),
            None => self.advance(arrival.at),
        }
    }

    /// The messages of one turn.
    pub open spec fn turn_reports(self, arrival: Arrival) -> Seq<BlockStateMessage> {
        match arrival.edge {
            Some(event) => self.on_edge_reports(event, arrival.at),
            None => self.advance_reports(arrival.at),
        }
    }

    /// The detector after a history of turns.
    pub open spec fn run(self, arrivals: Seq<Arrival>) -> DetectorModel
        decreases arrivals.len(),
    {
        if arrivals.len() == 0 {
            self
        } else {
            self.run(arrivals.drop_last()).turn(arrivals.last())
        }
    }

    /// The messages of a history of turns, in the order in which they are
    /// sent.
    pub open spec fn run_reports(self, arrivals: Seq<Arrival>) -> Seq<BlockStateMessage>
        decreases arrivals.len(),
    {
        if arrivals.len() == 0 {
            Seq::empty()
        } else {
            self.run_reports(arrivals.drop_last()) + self.run(arrivals.drop_last()).turn_reports(
                arrivals.last(),
            )
        }
    }
}

} // verus!
