use block_detector::axle::AxlePosition;
use block_detector::classifier::{classify, delay_for, SETTLE_DELAY_MS};
use block_detector::edge::{EdgeEvent, EdgeKind};
use block_detector::message::BlockStateMessage;

#[test]
fn axle_positions_are_encoded_as_0_1_2() {
    assert_eq!(AxlePosition::Front.index(), 0);
    assert_eq!(AxlePosition::Middle.index(), 1);
    assert_eq!(AxlePosition::Rear.index(), 2);
}

#[test]
fn wire_integers_decode_to_their_position() {
    assert_eq!(AxlePosition::from_index(0), Some(AxlePosition::Front));
    assert_eq!(AxlePosition::from_index(1), Some(AxlePosition::Middle));
    assert_eq!(AxlePosition::from_index(2), Some(AxlePosition::Rear));
    assert_eq!(AxlePosition::from_index(3), None);
    assert_eq!(AxlePosition::from_index(255), None);
}

#[test]
fn positions_are_bound_to_their_lines() {
    assert_eq!(AxlePosition::Front.line_offset(), 135);
    assert_eq!(AxlePosition::Middle.line_offset(), 134);
    assert_eq!(AxlePosition::Rear.line_offset(), 133);
    assert_eq!(AxlePosition::Front.consumer_label(), "frontevents");
    assert_eq!(AxlePosition::Middle.consumer_label(), "middleevents");
    assert_eq!(AxlePosition::Rear.consumer_label(), "rearevents");
}

#[test]
fn message_carries_the_wire_integer_of_its_sensor() {
    assert_eq!(
        BlockStateMessage::new(AxlePosition::Rear, true),
        BlockStateMessage { axle_position: 2, state: true }
    );
    assert_eq!(
        BlockStateMessage::new(AxlePosition::Front, false),
        BlockStateMessage { axle_position: 0, state: false }
    );
    assert_eq!(
        BlockStateMessage::new(AxlePosition::Middle, false).sensor(),
        Some(AxlePosition::Middle)
    );
    assert_eq!(BlockStateMessage { axle_position: 3, state: true }.sensor(), None);
}

#[test]
fn settle_delay_is_two_seconds() {
    assert_eq!(SETTLE_DELAY_MS, 2_000);
    assert_eq!(delay_for(EdgeKind::Falling), 2_000);
    assert_eq!(delay_for(EdgeKind::Rising), 0);
}

#[test]
fn rising_edge_is_classified_as_blocked_and_due_at_once() {
    let outcome = classify(EdgeEvent { sensor: AxlePosition::Middle, kind: EdgeKind::Rising });
    assert_eq!(outcome.message, BlockStateMessage { axle_position: 1, state: true });
    assert_eq!(outcome.delay_ms, 0);
}

#[test]
fn falling_edge_is_classified_as_clear_and_due_after_the_settle_delay() {
    let outcome = classify(EdgeEvent { sensor: AxlePosition::Rear, kind: EdgeKind::Falling });
    assert_eq!(outcome.message, BlockStateMessage { axle_position: 2, state: false });
    assert_eq!(outcome.delay_ms, 2_000);
}

#[test]
fn line_event_types_become_edge_kinds() {
    let up = EdgeEvent::from_event_type(AxlePosition::Front, gpio_cdev::EventType::RisingEdge);
    assert_eq!(up, EdgeEvent { sensor: AxlePosition::Front, kind: EdgeKind::Rising });
    let down = EdgeEvent::from_event_type(AxlePosition::Rear, gpio_cdev::EventType::FallingEdge);
    assert_eq!(down, EdgeEvent { sensor: AxlePosition::Rear, kind: EdgeKind::Falling });
}
