//! Raw edge events as the line source delivers them.

use vstd::prelude::*;
use crate::axle::AxlePosition;

verus! {

/// The direction of a transition on an input line.
#[derive(Clone, Copy, Debug, PartialEq, Eq, Structural)]
pub enum EdgeKind {
    /// Low to high: a block has been pushed in.
    Rising,
    /// High to low: the block has been let go.
    Falling,
}

/// One edge on the line of one sensor.
#[derive(Clone, Copy, Debug, PartialEq, Eq, Structural)]
pub struct EdgeEvent {
    pub sensor: AxlePosition,
    pub kind: EdgeKind,
}

/// `gpio_cdev::EventType`, carried through as an opaque value.
#[verifier::external_type_specification]
#[verifier::external_body]
pub struct ExEventType(gpio_cdev::EventType);

/// `gpio_cdev::LineEvent`, carried through as an opaque value.
#[verifier::external_type_specification]
#[verifier::external_body]
pub struct ExLineEvent(gpio_cdev::LineEvent);

/// `gpio_cdev::LineEvent::event_type` reads the direction out of the kernel's
/// event record. It returns for every record; nothing is claimed about which
/// direction comes back.
pub assume_specification[ gpio_cdev::LineEvent::event_type ](
    event: &gpio_cdev::LineEvent,
) -> (event_type: gpio_cdev::EventType)
;

/// Tells the two variants of `gpio_cdev::EventType` apart: `RisingEdge`
/// becomes `Rising`, `FallingEdge` becomes `Falling`. The variants are not
/// visible to the verifier, so the contract is silent on the result.
#[verifier::external_body]
fn kind_of(event_type: gpio_cdev::EventType) -> (kind: EdgeKind) {
    match event_type {
        gpio_cdev::EventType::RisingEdge => EdgeKind::Rising,
        gpio_cdev::EventType::FallingEdge => EdgeKind::Falling,
    }
}

impl EdgeEvent {
    /// The edge of the given direction on the line of `sensor`.
    pub fn from_event_type(sensor: AxlePosition, event_type: gpio_cdev::EventType) -> (event:
        EdgeEvent)
        ensures
            event.sensor == sensor,
    {
        EdgeEvent { sensor, kind: kind_of(event_type) }
    }

    /// The edge that a kernel event record describes, on the line of `sensor`.
    pub fn from_line_event(sensor: AxlePosition, line_event: &gpio_cdev::LineEvent) -> (event:
        EdgeEvent)
        ensures
            event.sensor == sensor,
    {
        Self::from_event_type(sensor, line_event.event_type())
    }
}

} // verus!
