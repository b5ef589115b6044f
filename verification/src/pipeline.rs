//! One turn of the event loop: from what happened to what to do.
//!
//! The loop itself waits on the three lines and on a timer, which this crate
//! cannot do. After each wake-up it hands what happened to [`step`], which
//! answers with the messages to publish and with what to do next.

use vstd::prelude::*;
use crate::axle::AxlePosition;
use crate::detector::{Detector, DetectorModel};
use crate::edge::EdgeEvent;
use crate::message::BlockStateMessage;

verus! {

/// What can go wrong around the detector.
#[derive(Clone, Copy, Debug, PartialEq, Eq, Structural)]
pub enum Fault {
    /// The GPIO chip or one of the three lines could not be opened.
    HardwareUnavailable,
    /// The bus node or the publisher could not be created.
    BusUnavailable,
    /// The event stream of a line gave an error in place of an edge.
    EventStream(AxlePosition),
    /// A message could not be sent.
    PublishFailed,
}

impl Fault {
    /// Whether the process ends on this fault. It does for all but a failed
    /// send: the detector does not start without its three lines and the
    /// bus, and a broken event stream on any line ends the loop for all
    /// three. A message that could not be sent is dropped and never sent
    /// again.
    pub open spec fn fatal(self) -> bool {
        !(self is PublishFailed)
    }

    /// Whether the process ends on this fault.
    pub fn is_fatal(&self) -> (fatal: bool)
        ensures
            fatal == self.fatal(),
    {
        match self {
            Fault::HardwareUnavailable => true,
            Fault::BusUnavailable => true,
            Fault::EventStream(_) => true,
            Fault::PublishFailed => false,
        }
    }
}

/// What woke the loop up.
#[derive(Clone, Copy, Debug, PartialEq, Eq, Structural)]
pub enum LoopEvent {
    /// A line delivered an edge.
    Edge(EdgeEvent),
    /// The wait that the previous turn asked for is over.
    TimerElapsed,
    /// The event stream of a line gave an error.
    LineFailed(AxlePosition),
}

/// What the loop does after it has published.
#[derive(Clone, Copy, Debug, PartialEq, Eq, Structural)]
pub enum Next {
    /// Wait for the next edge, but for no longer than the given time if one
    /// is given: that is when the next message becomes due.
    Wait(Option<u64>),
    /// Leave the loop with this fault.
    Abort(Fault),
}

/// The answer to one turn of the loop.
#[derive(Debug)]
pub struct Directive {
    /// The messages to publish, in this order.
    pub publish: Vec<BlockStateMessage>,
    /// What to do after that.
    pub next: Next,
}

/// The detector after one turn. An edge is taken in; an elapsed timer only
/// moves time; a failed line leaves the detector as it is.
pub open spec fn step_state(before: DetectorModel, event: LoopEvent, now: u64) -> DetectorModel {
    match event {
        LoopEvent::Edge(edge) => before.on_edge(edge, now),
        LoopEvent::TimerElapsed => before.advance(now),
        LoopEvent::LineFailed(_) => before,
    }
}

/// The messages to publish in one turn.
pub open spec fn step_reports(before: DetectorModel, event: LoopEvent, now: u64) -> Seq<
    BlockStateMessage,
> {
    match event {
        LoopEvent::Edge(edge) => before.on_edge_reports(edge, now),
        LoopEvent::TimerElapsed => before.advance_reports(now),
        LoopEvent::LineFailed(_) => Seq::empty(),
    }
}

/// What follows one turn: a failed line ends the loop, whichever line it is;
/// anything else is followed by a wait until the next message is due.
pub open spec fn step_next(before: DetectorModel, event: LoopEvent, now: u64) -> Next {
    match event {
        LoopEvent::LineFailed(sensor) => Next::Abort(Fault::EventStream(sensor)),
        _ => Next::Wait(step_state(before, event, now).wait(now)),
    }
}

/// Decides one turn of the loop: `event` is what woke the loop up, `now` is
/// the time at which it did.
pub fn step(detector: &mut Detector, event: LoopEvent, now: u64) -> (directive: Directive)
    ensures
        final(detector)@ == step_state(old(detector)@, event, now),
        directive.publish@ == step_reports(old(detector)@, event, now),
        directive.next == step_next(old(detector)@, event, now),
        old(detector)@.wf() ==> final(detector)@.wf(),
{
    match event {
        LoopEvent::Edge(edge) => {
            let publish = detector.on_edge(edge, now);
            Directive { publish, next: Next::Wait(detector.next_wait(now)) }
        },
        LoopEvent::TimerElapsed => {
            let publish = detector.advance(now);
            Directive { publish, next: Next::Wait(detector.next_wait(now)) }
        },
        LoopEvent::LineFailed(sensor) => Directive {
            publish: Vec::new(),
            next: Next::Abort(Fault::EventStream(sensor)),
        },
    }
}

} // verus!
