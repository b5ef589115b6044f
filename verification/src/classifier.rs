//! The edge classifier: what an edge means, and how long to wait before
//! trusting it.

use vstd::prelude::*;
use crate::edge::{EdgeEvent, EdgeKind};
use crate::message::BlockStateMessage;

verus! {

/// How long a falling edge must last before it is reported, in milliseconds.
pub const SETTLE_DELAY_MS: u64 = 2_000;

/// How long an edge of the given kind must last before it is reported: not
/// at all for a rising edge, the settle delay for a falling one.
pub open spec fn settle_delay(kind: EdgeKind) -> u64 {
    if kind == EdgeKind::Rising {
        0
    } else {
        SETTLE_DELAY_MS
    }
}

/// The outcome of classifying one edge: the message that it stands for, and
/// the time that must pass before the message may be sent.
#[derive(Clone, Copy, Debug, PartialEq, Eq, Structural)]
pub struct Classification {
    pub message: BlockStateMessage,
    /// Zero for a message that need not wait.
    pub delay_ms: u64,
}

/// The timing policy is asymmetric. A rising edge stands for "blocked" and
/// need not wait. A falling edge stands for "clear" and is due after the
/// settle delay.
pub open spec fn classification(event: EdgeEvent) -> Classification {
    Classification {
        message: BlockStateMessage::report(event.sensor, event.kind == EdgeKind::Rising),
        delay_ms: settle_delay(event.kind),
    }
}

/// How long an edge of the given kind must last before it is reported.
pub fn delay_for(kind: EdgeKind) -> (delay: u64)
    ensures
        delay == settle_delay(kind),
{
    match kind {
        EdgeKind::Rising => 0,
        EdgeKind::Falling => SETTLE_DELAY_MS,
    }
}

/// Classifies one raw edge event.
pub fn classify(event: EdgeEvent) -> (outcome: Classification)
    ensures
        outcome == classification(event),
{
    Classification {
        message: BlockStateMessage::new(event.sensor, event.kind == EdgeKind::Rising),
        delay_ms: delay_for(event.kind),
    }
}

} // verus!
