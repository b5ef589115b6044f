use block_detector::axle::AxlePosition;
use block_detector::edge::EdgeKind;
use block_detector::message::BlockStateMessage;
use block_detector::unit::{due, remaining, SensorUnit, Waiting};

#[test]
fn new_unit_is_clear_and_idle() {
    let unit = SensorUnit::new(AxlePosition::Middle);
    assert_eq!(unit.sensor(), AxlePosition::Middle);
    assert!(!unit.is_blocked());
    assert_eq!(unit.clock(), 0);
    assert_eq!(unit.pending_edges(), 0);
    assert_eq!(unit.wait(0), None);
}

fn release(arrived: u64) -> Waiting {
    Waiting { arrived, kind: EdgeKind::Falling }
}

fn block(arrived: u64) -> Waiting {
    Waiting { arrived, kind: EdgeKind::Rising }
}

#[test]
fn falling_edge_is_due_once_the_delay_has_passed() {
    assert!(!due(release(100), 100));
    assert!(!due(release(100), 2_099));
    assert!(due(release(100), 2_100));
    assert!(due(release(100), 9_000));
    assert!(!due(release(100), 50));
    assert!(due(release(0), u64::MAX));
}

#[test]
fn rising_edge_is_due_on_arrival() {
    assert!(due(block(100), 100));
    assert!(due(block(100), 5_000));
    assert!(due(block(100), 50));
    assert_eq!(remaining(block(100), 100), 0);
    assert_eq!(remaining(block(100), 50), 0);
}

#[test]
fn remaining_wait_counts_down_to_zero() {
    assert_eq!(remaining(release(100), 100), 2_000);
    assert_eq!(remaining(release(100), 600), 1_500);
    assert_eq!(remaining(release(100), 2_099), 1);
    assert_eq!(remaining(release(100), 2_100), 0);
    assert_eq!(remaining(release(100), 5_000), 0);
    assert_eq!(remaining(release(100), 50), 2_000);
}

#[test]
fn unit_moves_to_the_time_of_each_edge() {
    let mut unit = SensorUnit::new(AxlePosition::Front);
    assert_eq!(unit.on_edge(EdgeKind::Falling, 300), vec![]);
    assert_eq!(unit.clock(), 300);
    assert_eq!(unit.pending_edges(), 1);
    assert_eq!(unit.wait(300), Some(2_000));
    assert_eq!(unit.wait(200), Some(2_000));
    assert_eq!(unit.wait(1_300), Some(1_000));
    assert_eq!(unit.wait(2_300), Some(0));
    assert_eq!(unit.clock(), 300);
}

#[test]
fn unit_reports_blocked_then_clear() {
    let mut unit = SensorUnit::new(AxlePosition::Rear);
    assert_eq!(
        unit.on_edge(EdgeKind::Rising, 10),
        vec![BlockStateMessage { axle_position: 2, state: true }]
    );
    assert!(unit.is_blocked());
    assert_eq!(unit.on_edge(EdgeKind::Falling, 20), vec![]);
    assert!(unit.is_blocked());
    assert_eq!(unit.advance(2_019), vec![]);
    assert!(unit.is_blocked());
    assert_eq!(unit.advance(2_020), vec![BlockStateMessage { axle_position: 2, state: false }]);
    assert!(!unit.is_blocked());
    assert_eq!(unit.clock(), 2_020);
}

#[test]
fn apply_takes_the_edge_at_the_latest_time_seen() {
    let mut unit = SensorUnit::new(AxlePosition::Middle);
    assert_eq!(unit.advance(700), vec![]);
    assert_eq!(unit.apply(EdgeKind::Falling), vec![]);
    assert_eq!(unit.wait(700), Some(2_000));
    assert_eq!(unit.apply(EdgeKind::Falling), vec![]);
    assert_eq!(unit.pending_edges(), 2);
    assert_eq!(unit.apply(EdgeKind::Rising), vec![]);
    assert_eq!(unit.pending_edges(), 3);
    assert!(!unit.is_blocked());
    assert_eq!(
        unit.advance(9_000),
        vec![
            BlockStateMessage { axle_position: 1, state: false },
            BlockStateMessage { axle_position: 1, state: false },
            BlockStateMessage { axle_position: 1, state: true },
        ]
    );
    assert!(unit.is_blocked());
    assert_eq!(unit.pending_edges(), 0);
}

#[test]
fn rising_edge_with_nothing_waiting_is_applied_at_once() {
    let mut unit = SensorUnit::new(AxlePosition::Front);
    assert_eq!(
        unit.apply(EdgeKind::Rising),
        vec![BlockStateMessage { axle_position: 0, state: true }]
    );
    assert!(unit.is_blocked());
    assert_eq!(unit.pending_edges(), 0);
    assert_eq!(unit.wait(0), None);
}
