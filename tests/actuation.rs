use rover::bridge::{BridgeFrame, IMX500Detection};
use rover::control::{
    apply_directive, control_tick, fuse, tick_on, pacing_delay_ms, Directive, RateMeter,
};
use rover::motor_control::{MotorController, MotorStatus};
use rover::pathfinding::{NavigationCommand, PathPlanner};
use rover::vision::{NavigationAction, VisionSystem};

fn report(class: &str, h: i32) -> IMX500Detection {
    IMX500Detection { class: class.to_string(), conf: 700, x: 0, y: 0, w: 10, h }
}

fn frame(reports: Vec<IMX500Detection>) -> BridgeFrame {
    BridgeFrame { frame_id: 7, jpeg_base64: "img".to_string(), timestamp_ms: 1, imx500_basic: reports }
}

#[test]
fn forward_speed_is_clamped() {
    let mut m = MotorController::new();
    m.move_forward(1500);
    assert_eq!(m.get_speed(), 1000);
    m.move_forward(-20);
    assert_eq!(m.get_speed(), 0);
    m.move_forward(420);
    assert_eq!(m.get_speed(), 420);
}

#[test]
fn backward_speed_is_clamped_and_negated() {
    let mut m = MotorController::new();
    m.move_backward(1500);
    assert_eq!(m.get_speed(), -1000);
    m.move_backward(-3);
    assert_eq!(m.get_speed(), 0);
    m.move_backward(250);
    assert_eq!(m.get_speed(), -250);
}

#[test]
fn turns_accumulate_heading() {
    let mut m = MotorController::new();
    m.turn_right(90000);
    m.turn_right(300000);
    assert_eq!(m.get_heading(), 390000);
    m.turn_left(500000);
    assert_eq!(m.get_heading(), -110000);
}

#[test]
fn heading_saturates_at_the_range_ends() {
    let mut m = MotorController::new();
    m.turn_right(i64::MAX);
    m.turn_right(1);
    assert_eq!(m.get_heading(), i64::MAX);
    m.turn_left(i64::MIN);
    assert_eq!(m.get_heading(), i64::MAX);
    let mut n = MotorController::new();
    n.turn_left(i64::MAX);
    n.turn_left(10);
    assert_eq!(n.get_heading(), i64::MIN);
}

#[test]
fn stop_keeps_heading_and_enablement() {
    let mut m = MotorController::new();
    m.turn_right(45000);
    m.move_forward(600);
    m.stop();
    assert_eq!(m.get_status(), MotorStatus { speed: 0, heading: 45000, enabled: false });
}

#[test]
fn emergency_stop_is_idempotent() {
    let mut m = MotorController::new();
    m.move_backward(700);
    m.turn_left(1000);
    m.emergency_stop();
    let once = m.get_status();
    assert_eq!(once, MotorStatus { speed: 0, heading: -1000, enabled: false });
    m.emergency_stop();
    assert_eq!(m.get_status(), once);
}

#[test]
fn vision_veto_overrides_planner() {
    let c = NavigationCommand::Forward(500);
    assert_eq!(fuse(NavigationAction::EmergencyStop, c), Directive::EmergencyStop);
    assert_eq!(fuse(NavigationAction::Stop, c), Directive::Stop);
    assert_eq!(fuse(NavigationAction::SlowDown, c), Directive::Forward(500));
    assert_eq!(fuse(NavigationAction::Continue, NavigationCommand::TurnLeft(30)), Directive::TurnLeft(30));
    assert_eq!(fuse(NavigationAction::Continue, NavigationCommand::TurnRight(30)), Directive::TurnRight(30));
    assert_eq!(fuse(NavigationAction::Continue, NavigationCommand::Stop), Directive::Stop);
}

#[test]
fn directives_reach_the_actuator() {
    let mut m = MotorController::new();
    apply_directive(&mut m, Directive::Forward(2000));
    assert_eq!(m.get_speed(), 1000);
    apply_directive(&mut m, Directive::TurnRight(5));
    apply_directive(&mut m, Directive::TurnLeft(2));
    assert_eq!(m.get_heading(), 3);
    apply_directive(&mut m, Directive::Stop);
    assert_eq!(m.get_speed(), 0);
}

#[test]
fn empty_scene_cruises() {
    let (_tx, rx) = crossbeam_channel::unbounded::<BridgeFrame>();
    let mut v = VisionSystem::new(rx);
    let mut p = PathPlanner::new();
    let mut m = MotorController::new();
    let d = tick_on(&mut v, Some(frame(vec![])), &mut p, &mut m);
    assert_eq!(p.get_navigation_command(), NavigationCommand::Forward(500));
    assert_eq!(v.get_navigation_command(), NavigationAction::Continue);
    assert_eq!(d, Directive::Forward(500));
    assert_eq!(m.get_speed(), 500);
}

#[test]
fn close_person_triggers_emergency_stop() {
    let (_tx, rx) = crossbeam_channel::unbounded::<BridgeFrame>();
    let mut v = VisionSystem::new(rx);
    let mut p = PathPlanner::new();
    let mut m = MotorController::new();
    m.move_forward(500);
    // 1700 * 500 / 1062 = 800 mm, with a farther chair beside it.
    let d = tick_on(&mut v, Some(frame(vec![report("chair", 100), report("person", 1062)])), &mut p, &mut m);
    assert_eq!(v.get_last_detections()[1].distance_estimate, 800);
    assert_eq!(v.get_navigation_command(), NavigationAction::EmergencyStop);
    assert_eq!(d, Directive::EmergencyStop);
    assert_eq!(m.get_speed(), 0);
    assert!(!m.get_status().enabled);
}

#[test]
fn objects_stop_the_planner() {
    let (_tx, rx) = crossbeam_channel::unbounded::<BridgeFrame>();
    let mut v = VisionSystem::new(rx);
    let mut p = PathPlanner::new();
    let mut m = MotorController::new();
    // A far car: vision says Continue, the planner still stops.
    let d = tick_on(&mut v, Some(frame(vec![report("car", 100)])), &mut p, &mut m);
    assert_eq!(v.get_navigation_command(), NavigationAction::Continue);
    assert_eq!(d, Directive::Stop);
    assert_eq!(p.get_status().obstacles_count, 1);
}

#[test]
fn tick_without_frame_reuses_state() {
    let (_tx, rx) = crossbeam_channel::unbounded::<BridgeFrame>();
    let mut v = VisionSystem::new(rx);
    let mut p = PathPlanner::new();
    let mut m = MotorController::new();
    tick_on(&mut v, Some(frame(vec![report("chair", 400)])), &mut p, &mut m);
    let d = tick_on(&mut v, None, &mut p, &mut m);
    assert_eq!(d, Directive::Stop);
    assert_eq!(v.get_last_detections().len(), 1);
}

#[test]
fn pacing_sleeps_the_remainder() {
    assert_eq!(pacing_delay_ms(0), 33);
    assert_eq!(pacing_delay_ms(10), 23);
    assert_eq!(pacing_delay_ms(33), 0);
    assert_eq!(pacing_delay_ms(90), 0);
}

#[test]
fn rate_is_reported_once_a_second() {
    let mut r = RateMeter::new(1000);
    assert_eq!(r.on_tick(1500), None);
    assert_eq!(r.frames, 1);
    assert_eq!(r.on_tick(2000), Some(20));
    assert_eq!(r, RateMeter { frames: 0, window_start_ms: 2000 });
    for k in 1..30u64 {
        assert_eq!(r.on_tick(2000 + k * 33), None);
    }
    assert_eq!(r.on_tick(3000), Some(300));
}

#[test]
fn planner_status() {
    let p = PathPlanner::new();
    assert_eq!(p.get_distance_to_goal(), None);
    assert!(p.get_current_path().is_empty());
    let s = p.get_status();
    assert!(!s.has_path);
    assert_eq!(s.distance_to_goal, None);
    assert_eq!(s.obstacles_count, 0);
}

#[test]
fn tick_polls_the_bridge() {
    let (tx, rx) = crossbeam_channel::unbounded::<BridgeFrame>();
    let mut v = VisionSystem::new(rx);
    let mut p = PathPlanner::new();
    let mut m = MotorController::new();
    assert_eq!(control_tick(&mut v, &mut p, &mut m), Directive::Forward(500));
    tx.send(frame(vec![report("person", 2000)])).unwrap();
    // 1700 * 500 / 2000 = 425 mm
    assert_eq!(control_tick(&mut v, &mut p, &mut m), Directive::EmergencyStop);
    assert!(v.poll_frame().is_none());
}
