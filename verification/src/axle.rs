//! The three sensor positions and their fixed bindings.

use vstd::prelude::*;

verus! {

/// One of the three axle positions that carry a block sensor.
#[derive(Clone, Copy, Debug, PartialEq, Eq, Structural)]
pub enum AxlePosition {
    Front,
    Middle,
    Rear,
}

impl AxlePosition {
    /// The integer that stands for this position in a published message.
    pub open spec fn spec_index(self) -> u8 {
        match self {
            AxlePosition::Front => 0,
            AxlePosition::Middle => 1,
            AxlePosition::Rear => 2,
        }
    }

    /// The offset of the input line on the GPIO chip that this position is
    /// wired to.
    pub open spec fn spec_line_offset(self) -> u32 {
        match self {
            AxlePosition::Front => 135,
            AxlePosition::Middle => 134,
            AxlePosition::Rear => 133,
        }
    }

    /// Encodes the position for the wire: 0 for the front, 1 for the middle,
    /// 2 for the rear axle.
    #[verifier::when_used_as_spec(spec_index)]
    pub fn index(self) -> (i: u8)
        ensures
            i == self.spec_index(),
    {
        match self {
            AxlePosition::Front => 0,
            AxlePosition::Middle => 1,
            AxlePosition::Rear => 2,
        }
    }

    /// Decodes a wire integer. Integers above 2 stand for no position.
    pub fn from_index(i: u8) -> (position: Option<AxlePosition>)
        ensures
            i > 2 <==> position is None,
            position matches Some(p) ==> p.spec_index() == i,
    {
        if i == 0 {
            Some(AxlePosition::Front)
        } else if i == 1 {
            Some(AxlePosition::Middle)
        } else if i == 2 {
            Some(AxlePosition::Rear)
        } else {
            None
        }
    }

    /// The line offset to request from the GPIO chip for this position.
    #[verifier::when_used_as_spec(spec_line_offset)]
    pub fn line_offset(self) -> (offset: u32)
        ensures
            offset == self.spec_line_offset(),
    {
        match self {
            AxlePosition::Front => 135,
            AxlePosition::Middle => 134,
            AxlePosition::Rear => 133,
        }
    }

    /// The consumer label under which the line of this position is requested.
    pub fn consumer_label(self) -> (label: &'static str)
        ensures
            label@ == match self {
                AxlePosition::Front => "frontevents"@,
                AxlePosition::Middle => "middleevents"@,
                AxlePosition::Rear => "rearevents"@,
            },
    {
        match self {
            AxlePosition::Front => "frontevents",
            AxlePosition::Middle => "middleevents",
            AxlePosition::Rear => "rearevents",
        }
    }
}

} // verus!
