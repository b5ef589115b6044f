use block_detector::axle::AxlePosition;
use block_detector::detector::Detector;
use block_detector::edge::{EdgeEvent, EdgeKind};
use block_detector::message::BlockStateMessage;

fn rising(sensor: AxlePosition) -> EdgeEvent {
    EdgeEvent { sensor, kind: EdgeKind::Rising }
}

fn falling(sensor: AxlePosition) -> EdgeEvent {
    EdgeEvent { sensor, kind: EdgeKind::Falling }
}

fn message(axle_position: u8, state: bool) -> BlockStateMessage {
    BlockStateMessage { axle_position, state }
}

#[test]
fn front_rising_is_published_at_once() {
    let mut detector = Detector::new();
    let reports = detector.on_edge(rising(AxlePosition::Front), 0);
    assert_eq!(reports, vec![message(0, true)]);
    assert!(detector.is_blocked(AxlePosition::Front));
    assert_eq!(detector.next_wait(0), None);
}

#[test]
fn middle_falling_is_published_after_the_settle_delay() {
    let mut detector = Detector::new();
    assert_eq!(detector.on_edge(falling(AxlePosition::Middle), 0), vec![]);
    assert_eq!(detector.pending_edges(AxlePosition::Middle), 1);
    assert_eq!(detector.next_wait(0), Some(2_000));
    assert_eq!(detector.advance(1_000), vec![]);
    assert_eq!(detector.next_wait(1_000), Some(1_000));
    assert_eq!(detector.advance(1_999), vec![]);
    assert_eq!(detector.advance(2_000), vec![message(1, false)]);
    assert_eq!(detector.pending_edges(AxlePosition::Middle), 0);
    assert!(!detector.is_blocked(AxlePosition::Middle));
    assert_eq!(detector.advance(10_000), vec![]);
}

#[test]
fn rear_rising_within_the_settle_window_follows_the_falling_edge() {
    let mut detector = Detector::new();
    assert_eq!(detector.on_edge(falling(AxlePosition::Rear), 0), vec![]);
    assert_eq!(detector.on_edge(rising(AxlePosition::Rear), 500), vec![]);
    assert_eq!(detector.pending_edges(AxlePosition::Rear), 2);
    assert!(!detector.is_blocked(AxlePosition::Rear));
    assert_eq!(detector.next_wait(500), Some(1_500));
    assert_eq!(detector.advance(1_999), vec![]);
    assert_eq!(detector.advance(2_000), vec![message(2, false), message(2, true)]);
    assert_eq!(detector.pending_edges(AxlePosition::Rear), 0);
    assert_eq!(detector.next_wait(2_000), None);
    assert_eq!(detector.advance(5_000), vec![]);
    assert!(detector.is_blocked(AxlePosition::Rear));
}

#[test]
fn same_trace_gives_the_same_messages_each_time() {
    let mut sequences = Vec::new();
    for _ in 0..3 {
        let mut detector = Detector::new();
        let mut published = Vec::new();
        published.extend(detector.on_edge(falling(AxlePosition::Rear), 0));
        published.extend(detector.on_edge(rising(AxlePosition::Rear), 500));
        published.extend(detector.advance(2_000));
        published.extend(detector.advance(4_000));
        sequences.push(published);
    }
    assert_eq!(sequences[0], vec![message(2, false), message(2, true)]);
    assert_eq!(sequences[1], sequences[0]);
    assert_eq!(sequences[2], sequences[0]);
}

#[test]
fn rising_edge_behind_a_release_does_not_delay_another_sensor() {
    let mut detector = Detector::new();
    assert_eq!(detector.on_edge(falling(AxlePosition::Rear), 0), vec![]);
    assert_eq!(detector.on_edge(rising(AxlePosition::Rear), 500), vec![]);
    assert_eq!(detector.on_edge(rising(AxlePosition::Front), 600), vec![message(0, true)]);
    assert_eq!(detector.on_edge(falling(AxlePosition::Front), 700), vec![]);
    assert_eq!(detector.advance(2_000), vec![message(2, false), message(2, true)]);
    assert_eq!(detector.advance(2_700), vec![message(0, false)]);
}

#[test]
fn simultaneous_rising_edges_give_one_message_per_sensor() {
    let mut detector = Detector::new();
    let mut published = Vec::new();
    published.extend(detector.on_edge(rising(AxlePosition::Rear), 7));
    published.extend(detector.on_edge(rising(AxlePosition::Front), 7));
    published.extend(detector.on_edge(rising(AxlePosition::Middle), 7));
    assert_eq!(published.len(), 3);
    assert!(published.iter().all(|m| m.state));
    for position in 0u8..3 {
        assert_eq!(published.iter().filter(|m| m.axle_position == position).count(), 1);
    }
    assert!(detector.is_blocked(AxlePosition::Front));
    assert!(detector.is_blocked(AxlePosition::Middle));
    assert!(detector.is_blocked(AxlePosition::Rear));
}

#[test]
fn pending_release_on_one_sensor_does_not_delay_another() {
    let mut detector = Detector::new();
    assert_eq!(detector.on_edge(falling(AxlePosition::Front), 0), vec![]);
    assert_eq!(detector.on_edge(rising(AxlePosition::Rear), 100), vec![message(2, true)]);
    assert_eq!(detector.pending_edges(AxlePosition::Front), 1);
    assert_eq!(detector.next_wait(100), Some(1_900));
    assert_eq!(detector.advance(2_000), vec![message(0, false)]);
    assert!(detector.is_blocked(AxlePosition::Rear));
    assert!(!detector.is_blocked(AxlePosition::Front));
}

#[test]
fn release_that_lasted_is_published_before_a_late_rising_edge() {
    let mut detector = Detector::new();
    assert_eq!(detector.on_edge(rising(AxlePosition::Rear), 0), vec![message(2, true)]);
    assert_eq!(detector.on_edge(falling(AxlePosition::Rear), 100), vec![]);
    assert_eq!(
        detector.on_edge(rising(AxlePosition::Rear), 2_100),
        vec![message(2, false), message(2, true)]
    );
    assert!(detector.is_blocked(AxlePosition::Rear));
    assert_eq!(detector.next_wait(2_100), None);
}

#[test]
fn each_falling_edge_that_lasts_gets_its_own_message() {
    let mut detector = Detector::new();
    assert_eq!(detector.on_edge(falling(AxlePosition::Middle), 0), vec![]);
    assert_eq!(detector.on_edge(falling(AxlePosition::Middle), 1_000), vec![]);
    assert_eq!(detector.pending_edges(AxlePosition::Middle), 2);
    assert_eq!(detector.advance(2_000), vec![message(1, false)]);
    assert_eq!(detector.next_wait(2_000), Some(1_000));
    assert_eq!(detector.advance(2_999), vec![]);
    assert_eq!(detector.advance(3_000), vec![message(1, false)]);
    assert_eq!(detector.next_wait(3_000), None);
}

#[test]
fn releases_that_are_due_together_come_out_in_sensor_order() {
    let mut detector = Detector::new();
    assert_eq!(detector.on_edge(falling(AxlePosition::Rear), 0), vec![]);
    assert_eq!(detector.on_edge(falling(AxlePosition::Front), 10), vec![]);
    assert_eq!(detector.on_edge(falling(AxlePosition::Middle), 20), vec![]);
    assert_eq!(detector.next_wait(20), Some(1_980));
    assert_eq!(
        detector.advance(2_020),
        vec![message(0, false), message(1, false), message(2, false)]
    );
}

#[test]
fn bounce_on_release_is_reported_edge_by_edge_in_arrival_order() {
    let mut detector = Detector::new();
    let mut published = Vec::new();
    published.extend(detector.on_edge(rising(AxlePosition::Front), 0));
    published.extend(detector.on_edge(falling(AxlePosition::Front), 5_000));
    published.extend(detector.on_edge(rising(AxlePosition::Front), 5_003));
    published.extend(detector.on_edge(falling(AxlePosition::Front), 5_004));
    assert_eq!(published, vec![message(0, true)]);
    assert_eq!(detector.pending_edges(AxlePosition::Front), 3);
    assert_eq!(detector.advance(6_999), vec![]);
    assert_eq!(detector.advance(7_000), vec![message(0, false), message(0, true)]);
    assert!(detector.is_blocked(AxlePosition::Front));
    assert_eq!(detector.next_wait(7_000), Some(4));
    assert_eq!(detector.advance(7_003), vec![]);
    assert_eq!(detector.advance(7_004), vec![message(0, false)]);
    assert!(!detector.is_blocked(AxlePosition::Front));
    assert_eq!(detector.next_wait(7_004), None);
}

#[test]
fn rising_edges_behind_a_release_all_come_out_when_it_settles() {
    let mut detector = Detector::new();
    assert_eq!(detector.on_edge(falling(AxlePosition::Middle), 100), vec![]);
    assert_eq!(detector.on_edge(rising(AxlePosition::Middle), 200), vec![]);
    assert_eq!(detector.on_edge(rising(AxlePosition::Middle), 300), vec![]);
    assert_eq!(
        detector.on_edge(rising(AxlePosition::Middle), 2_100),
        vec![message(1, false), message(1, true), message(1, true), message(1, true)]
    );
    assert_eq!(detector.pending_edges(AxlePosition::Middle), 0);
}

#[test]
fn time_that_goes_back_is_taken_for_the_latest_time_seen() {
    let mut detector = Detector::new();
    assert_eq!(detector.advance(10_000), vec![]);
    assert_eq!(detector.on_edge(falling(AxlePosition::Front), 4_000), vec![]);
    assert_eq!(detector.next_wait(4_000), Some(2_000));
    assert_eq!(detector.next_wait(11_000), Some(1_000));
    assert_eq!(detector.advance(11_999), vec![]);
    assert_eq!(detector.advance(12_000), vec![message(0, false)]);
}

#[test]
fn times_near_the_end_of_the_range_do_not_overflow() {
    let mut detector = Detector::new();
    assert_eq!(detector.on_edge(falling(AxlePosition::Rear), u64::MAX - 1_000), vec![]);
    assert_eq!(detector.next_wait(u64::MAX - 1_000), Some(2_000));
    assert_eq!(detector.next_wait(u64::MAX), Some(1_000));
    assert_eq!(detector.advance(u64::MAX), vec![]);
    assert_eq!(detector.pending_edges(AxlePosition::Rear), 1);
}
