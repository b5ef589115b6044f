//! The message that reports one state transition of one sensor.

use vstd::prelude::*;
use crate::axle::AxlePosition;

verus! {

/// The outbound record: which axle position, and whether it is blocked.
#[derive(Clone, Copy, Debug, PartialEq, Eq, Structural)]
pub struct BlockStateMessage {
    /// The wire integer of the position: 0, 1 or 2.
    pub axle_position: u8,
    /// `true` for blocked, `false` for clear.
    pub state: bool,
}

impl BlockStateMessage {
    /// The message that reports `blocked` for `sensor`.
    pub open spec fn report(sensor: AxlePosition, blocked: bool) -> BlockStateMessage {
        BlockStateMessage { axle_position: sensor.spec_index(), state: blocked }
    }

    /// Builds the message that reports `blocked` for `sensor`.
    pub fn new(sensor: AxlePosition, blocked: bool) -> (message: BlockStateMessage)
        ensures
            message == Self::report(sensor, blocked),
    {
        BlockStateMessage { axle_position: sensor.index(), state: blocked }
    }

    /// The position that this message speaks of, if its integer names one.
    pub fn sensor(&self) -> (position: Option<AxlePosition>)
        ensures
            self.axle_position > 2 <==> position is None,
            position matches Some(p) ==> *self == Self::report(p, self.state),
    {
        AxlePosition::from_index(self.axle_position)
    }
}

} // verus!
