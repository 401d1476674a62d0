use rover::bridge::{BridgeFrame, IMX500Detection};
use rover::cv::Rect;
use rover::vision::{
    calculate_distance, determine_action, dominant_action, Detection, NavigationAction,
    VisionSystem,
};

fn det(name: &str, distance: u32, action: NavigationAction) -> Detection {
    Detection {
        class_name: name.to_string(),
        confidence: 900,
        bbox: Rect::new(0, 0, 10, 10),
        distance_estimate: distance,
        action,
    }
}

fn report(class: &str, h: i32) -> IMX500Detection {
    IMX500Detection { class: class.to_string(), conf: 850, x: 10, y: 20, w: 30, h }
}

fn frame(image: &str, reports: Vec<IMX500Detection>) -> BridgeFrame {
    BridgeFrame { frame_id: 1, jpeg_base64: image.to_string(), timestamp_ms: 5, imx500_basic: reports }
}

#[test]
fn distance_uses_class_height() {
    assert_eq!(calculate_distance(100, &"person".to_string()), 8500);
    assert_eq!(calculate_distance(500, &"car".to_string()), 1500);
    assert_eq!(calculate_distance(300, &"truck".to_string()), 5000);
    assert_eq!(calculate_distance(100, &"bicycle".to_string()), 5000);
    assert_eq!(calculate_distance(400, &"chair".to_string()), 1000);
    assert_eq!(calculate_distance(125, &"bottle".to_string()), 1000);
    assert_eq!(calculate_distance(100, &"kite".to_string()), 2500);
}

#[test]
fn distance_rounds_down() {
    // 1700 * 500 / 300 = 2833.33...
    assert_eq!(calculate_distance(300, &"person".to_string()), 2833);
}

#[test]
fn distance_without_height_is_far() {
    assert_eq!(calculate_distance(0, &"person".to_string()), 10000);
    assert_eq!(calculate_distance(-5, &"car".to_string()), 10000);
}

#[test]
fn person_thresholds() {
    let p = "person".to_string();
    assert_eq!(determine_action(&p, 999), NavigationAction::EmergencyStop);
    assert_eq!(determine_action(&p, 1000), NavigationAction::Stop);
    assert_eq!(determine_action(&p, 1999), NavigationAction::Stop);
    assert_eq!(determine_action(&p, 2000), NavigationAction::SlowDown);
    assert_eq!(determine_action(&p, 2999), NavigationAction::SlowDown);
    assert_eq!(determine_action(&p, 3000), NavigationAction::Continue);
}

#[test]
fn object_thresholds() {
    let c = "chair".to_string();
    assert_eq!(determine_action(&c, 0), NavigationAction::Stop);
    assert_eq!(determine_action(&c, 1499), NavigationAction::Stop);
    assert_eq!(determine_action(&c, 1500), NavigationAction::SlowDown);
    assert_eq!(determine_action(&c, 2999), NavigationAction::SlowDown);
    assert_eq!(determine_action(&c, 3000), NavigationAction::Continue);
}

#[test]
fn dominant_of_empty_is_continue() {
    assert_eq!(dominant_action(&Vec::new()), NavigationAction::Continue);
}

#[test]
fn dominant_is_nearest_not_most_severe() {
    let v = vec![
        det("chair", 1200, NavigationAction::Stop),
        det("person", 800, NavigationAction::SlowDown),
        det("person", 2500, NavigationAction::EmergencyStop),
    ];
    assert_eq!(dominant_action(&v), NavigationAction::SlowDown);
}

#[test]
fn dominant_tie_goes_to_first() {
    let v = vec![
        det("car", 3000, NavigationAction::Continue),
        det("chair", 1000, NavigationAction::Stop),
        det("bottle", 1000, NavigationAction::SlowDown),
    ];
    assert_eq!(dominant_action(&v), NavigationAction::Stop);
}

#[test]
fn action_order_and_names() {
    assert!(NavigationAction::Continue < NavigationAction::SlowDown);
    assert!(NavigationAction::SlowDown < NavigationAction::Stop);
    assert!(NavigationAction::Stop < NavigationAction::EmergencyStop);
    assert_eq!(NavigationAction::EmergencyStop.severity(), 3);
    assert_eq!(NavigationAction::Continue.severity(), 0);
    assert_eq!(NavigationAction::SlowDown.name(), "SlowDown");
    assert_eq!(NavigationAction::EmergencyStop.name(), "EmergencyStop");
}

#[test]
fn frame_replaces_detections_and_image() {
    let (_tx, rx) = crossbeam_channel::unbounded();
    let mut v = VisionSystem::new(rx);
    let out = v.ingest(Some(frame("abc", vec![report("person", 1000), report("chair", 100)])));
    assert_eq!(out.len(), 2);
    assert_eq!(out[0].class_name, "person");
    assert_eq!(out[0].distance_estimate, 850);
    assert_eq!(out[0].action, NavigationAction::EmergencyStop);
    assert_eq!(out[0].confidence, 850);
    assert_eq!(out[0].bbox, Rect::new(10, 20, 30, 1000));
    assert_eq!(out[1].distance_estimate, 4000);
    assert_eq!(out[1].action, NavigationAction::Continue);
    assert_eq!(v.get_last_detections(), out);
    assert_eq!(v.get_last_frame_base64(), "abc");
    assert_eq!(v.get_telemetry().frame_count, 1);
    assert_eq!(v.get_navigation_command(), NavigationAction::EmergencyStop);
}

#[test]
fn no_frame_keeps_last_state() {
    let (_tx, rx) = crossbeam_channel::unbounded();
    let mut v = VisionSystem::new(rx);
    v.ingest(Some(frame("img1", vec![report("car", 500)])));
    let out = v.ingest(None);
    assert_eq!(out.len(), 1);
    assert_eq!(out[0].class_name, "car");
    assert_eq!(v.get_last_frame_base64(), "img1");
    assert_eq!(v.get_telemetry().frame_count, 2);
}

#[test]
fn malformed_line_queues_nothing() {
    // The reader forwards decoded frames only; a line that does not decode
    // sends nothing, so the poll finds the queue empty.
    let (tx, rx) = crossbeam_channel::unbounded::<BridgeFrame>();
    let mut v = VisionSystem::new(rx);
    tx.send(frame("first", vec![report("bottle", 50)])).unwrap();
    let first = v.process_frame();
    assert_eq!(first.len(), 1);
    let again = v.process_frame();
    assert_eq!(again, first);
    assert_eq!(v.get_last_frame_base64(), "first");
    assert_eq!(v.get_last_detections(), first);
}

#[test]
fn queued_frames_arrive_in_order() {
    let (tx, rx) = crossbeam_channel::unbounded::<BridgeFrame>();
    let mut v = VisionSystem::new(rx);
    tx.send(frame("a", vec![])).unwrap();
    tx.send(frame("b", vec![report("person", 100)])).unwrap();
    v.process_frame();
    assert_eq!(v.get_last_frame_base64(), "a");
    v.process_frame();
    assert_eq!(v.get_last_frame_base64(), "b");
    assert_eq!(v.get_last_detections().len(), 1);
}

#[test]
fn telemetry_is_nominal() {
    let (_tx, rx) = crossbeam_channel::unbounded::<BridgeFrame>();
    let v = VisionSystem::new(rx);
    let t = v.get_telemetry();
    assert_eq!(t.frame_count, 0);
    assert_eq!(t.fps, 30);
    assert_eq!(t.inference_time_ms, 15);
    assert!(t.processing);
}
