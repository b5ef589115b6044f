use block_detector::axle::AxlePosition;
use block_detector::detector::{pick_sooner, Detector};
use block_detector::edge::{EdgeEvent, EdgeKind};
use block_detector::message::BlockStateMessage;
use block_detector::pipeline::{step, Fault, LoopEvent, Next};

#[test]
fn rising_edge_turn_publishes_and_waits_for_edges_only() {
    let mut detector = Detector::new();
    let edge = EdgeEvent { sensor: AxlePosition::Front, kind: EdgeKind::Rising };
    let directive = step(&mut detector, LoopEvent::Edge(edge), 40);
    assert_eq!(directive.publish, vec![BlockStateMessage { axle_position: 0, state: true }]);
    assert_eq!(directive.next, Next::Wait(None));
}

#[test]
fn falling_edge_turn_asks_for_a_timer() {
    let mut detector = Detector::new();
    let edge = EdgeEvent { sensor: AxlePosition::Middle, kind: EdgeKind::Falling };
    let directive = step(&mut detector, LoopEvent::Edge(edge), 40);
    assert_eq!(directive.publish, vec![]);
    assert_eq!(directive.next, Next::Wait(Some(2_000)));
}

#[test]
fn timer_turn_publishes_what_is_due() {
    let mut detector = Detector::new();
    let first = EdgeEvent { sensor: AxlePosition::Middle, kind: EdgeKind::Falling };
    let second = EdgeEvent { sensor: AxlePosition::Rear, kind: EdgeKind::Falling };
    step(&mut detector, LoopEvent::Edge(first), 0);
    let directive = step(&mut detector, LoopEvent::Edge(second), 1_500);
    assert_eq!(directive.publish, vec![]);
    assert_eq!(directive.next, Next::Wait(Some(500)));
    let directive = step(&mut detector, LoopEvent::TimerElapsed, 2_000);
    assert_eq!(directive.publish, vec![BlockStateMessage { axle_position: 1, state: false }]);
    assert_eq!(directive.next, Next::Wait(Some(1_500)));
    let directive = step(&mut detector, LoopEvent::TimerElapsed, 3_500);
    assert_eq!(directive.publish, vec![BlockStateMessage { axle_position: 2, state: false }]);
    assert_eq!(directive.next, Next::Wait(None));
}

#[test]
fn early_timer_turn_publishes_nothing_and_asks_again() {
    let mut detector = Detector::new();
    let edge = EdgeEvent { sensor: AxlePosition::Rear, kind: EdgeKind::Falling };
    step(&mut detector, LoopEvent::Edge(edge), 0);
    let directive = step(&mut detector, LoopEvent::TimerElapsed, 1_999);
    assert_eq!(directive.publish, vec![]);
    assert_eq!(directive.next, Next::Wait(Some(1)));
}

#[test]
fn failed_line_ends_the_loop_and_publishes_nothing() {
    let mut detector = Detector::new();
    let edge = EdgeEvent { sensor: AxlePosition::Front, kind: EdgeKind::Falling };
    step(&mut detector, LoopEvent::Edge(edge), 0);
    let directive = step(&mut detector, LoopEvent::LineFailed(AxlePosition::Rear), 5_000);
    assert_eq!(directive.publish, vec![]);
    assert_eq!(directive.next, Next::Abort(Fault::EventStream(AxlePosition::Rear)));
    assert_eq!(detector.pending_edges(AxlePosition::Front), 1);
}

#[test]
fn only_a_failed_send_is_not_fatal() {
    assert!(Fault::HardwareUnavailable.is_fatal());
    assert!(Fault::BusUnavailable.is_fatal());
    assert!(Fault::EventStream(AxlePosition::Front).is_fatal());
    assert!(Fault::EventStream(AxlePosition::Middle).is_fatal());
    assert!(Fault::EventStream(AxlePosition::Rear).is_fatal());
    assert!(!Fault::PublishFailed.is_fatal());
}

#[test]
fn sooner_of_two_waits() {
    assert_eq!(pick_sooner(None, None), None);
    assert_eq!(pick_sooner(Some(5), None), Some(5));
    assert_eq!(pick_sooner(None, Some(7)), Some(7));
    assert_eq!(pick_sooner(Some(5), Some(7)), Some(5));
    assert_eq!(pick_sooner(Some(9), Some(7)), Some(7));
}

#[test]
fn rising_edge_behind_a_release_keeps_the_timer_running() {
    let mut detector = Detector::new();
    let down = EdgeEvent { sensor: AxlePosition::Rear, kind: EdgeKind::Falling };
    let up = EdgeEvent { sensor: AxlePosition::Rear, kind: EdgeKind::Rising };
    let directive = step(&mut detector, LoopEvent::Edge(down), 0);
    assert_eq!(directive.publish, vec![]);
    assert_eq!(directive.next, Next::Wait(Some(2_000)));
    let directive = step(&mut detector, LoopEvent::Edge(up), 500);
    assert_eq!(directive.publish, vec![]);
    assert_eq!(directive.next, Next::Wait(Some(1_500)));
    let directive = step(&mut detector, LoopEvent::TimerElapsed, 2_000);
    assert_eq!(
        directive.publish,
        vec![
            BlockStateMessage { axle_position: 2, state: false },
            BlockStateMessage { axle_position: 2, state: true },
        ]
    );
    assert_eq!(directive.next, Next::Wait(None));
    assert!(detector.is_blocked(AxlePosition::Rear));
}
