use vstd::prelude::*;
use crate::motor_control::MotorController;
use crate::pathfinding::{GOAL_DISTANCE_MM, PathPlanner};
use crate::vision::{
    Detection, NavigationAction, VisionSystem, VisionTelemetry, action_name,
    dominant, NOMINAL_FPS, NOMINAL_INFERENCE_MS,
};

verus! {

/// Path summary shown to observers.
#[derive(Debug, Clone, PartialEq, Eq)]
pub struct PathStatus {
    pub status: String,
    pub color: String,
    pub obstacles: usize,
}

/// Navigation summary shown to observers.
#[derive(Debug, Clone, PartialEq, Eq)]
pub struct NavigationInfo {
    pub action: String,
    /// Advisory speed in thousandths of full scale.
    pub speed: i32,
    /// Heading in millidegrees.
    pub heading: i64,
    /// Distance to the goal in millimetres, when a goal is set.
    pub distance_to_goal: Option<u32>,
}

/// The rich telemetry message: image, detections, statistics and derived
/// path and navigation summaries.
#[derive(Debug, Clone, PartialEq, Eq)]
pub struct FrameData {
    pub image: String,
    pub detections: Vec<Detection>,
    pub telemetry: VisionTelemetry,
    pub path_status: PathStatus,
    pub navigation: NavigationInfo,
    /// Milliseconds since the Unix epoch.
    pub timestamp: u64,
}

/// The periodic broadcast message: image and detections as last seen.
#[derive(Debug, Clone, PartialEq, Eq)]
pub struct BroadcastMessage {
    pub image: String,
    pub detections: Vec<Detection>,
    /// Milliseconds since the Unix epoch.
    pub timestamp: u64,
    pub status: String,
    pub detection_count: usize,
}

/// Path status text for a detection count and the governing action.
pub open spec fn path_label(count: nat, action: NavigationAction) -> Seq<char> {
    if count == 0 {
        "CLEAR"@
    } else {
        match action {
            NavigationAction::EmergencyStop | NavigationAction::Stop => "BLOCKED"@,
            NavigationAction::SlowDown => "CAUTION"@,
            NavigationAction::Continue => "CLEAR"@,
        }
    }
}

/// Display colour for a detection count and the governing action.
pub open spec fn path_color(count: nat, action: NavigationAction) -> Seq<char> {
    if count == 0 {
        "green"@
    } else {
        match action {
            NavigationAction::EmergencyStop | NavigationAction::Stop => "red"@,
            NavigationAction::SlowDown => "yellow"@,
            NavigationAction::Continue => "green"@,
        }
    }
}

/// Advisory speed for an action, in thousandths of full scale.
pub open spec fn advisory_speed(action: NavigationAction) -> i32 {
    match action {
        NavigationAction::EmergencyStop | NavigationAction::Stop => 0,
        NavigationAction::SlowDown => 300,
        NavigationAction::Continue => 500,
    }
}

/// The path summary for `detection_count` detections governed by `action`.
pub fn path_status_for(detection_count: usize, action: NavigationAction) -> (r: PathStatus)
    ensures
        r.status@ == path_label(detection_count as nat, action),
        r.color@ == path_color(detection_count as nat, action),
        r.obstacles == detection_count,
{
    if detection_count == 0 {
        return PathStatus { status: "CLEAR".to_owned(), color: "green".to_owned(), obstacles: 0 };
    }
    let (status, color) = match action {
        NavigationAction::EmergencyStop => ("BLOCKED", "red"),
        NavigationAction::Stop => ("BLOCKED", "red"),
        NavigationAction::SlowDown => ("CAUTION", "yellow"),
        NavigationAction::Continue => ("CLEAR", "green"),
    };
    PathStatus { status: status.to_owned(), color: color.to_owned(), obstacles: detection_count }
}

/// The advisory speed for `action`.
pub fn speed_for(action: NavigationAction) -> (r: i32)
    ensures
        r == advisory_speed(action),
{
    match action {
        NavigationAction::EmergencyStop => 0,
        NavigationAction::Stop => 0,
        NavigationAction::SlowDown => 300,
        NavigationAction::Continue => 500,
    }
}

/// The navigation summary for `action`, the actuator's heading and the
/// planner's distance to goal.
pub fn navigation_info(action: NavigationAction, heading: i64, distance_to_goal: Option<u32>) -> (r:
    NavigationInfo)
    ensures
        r.action@ == action_name(action),
        r.speed == advisory_speed(action),
        r.heading == heading,
        r.distance_to_goal == distance_to_goal,
{
    NavigationInfo { action: action.name(), speed: speed_for(action), heading, distance_to_goal }
}

/// Builds the rich telemetry message from the perception, planner and
/// actuator states, stamped `timestamp_ms`.
pub fn create_frame_data(
    vision: &VisionSystem,
    planner: &PathPlanner,
    motors: &MotorController,
    timestamp_ms: u64,
) -> (r: FrameData)
    ensures
        r.image@ == vision.image(),
        r.detections@ == vision.detections(),
        r.telemetry == (VisionTelemetry {
            frame_count: vision.frames(),
            fps: NOMINAL_FPS,
            inference_time_ms: NOMINAL_INFERENCE_MS,
            processing: true,
        }),
        exists|a: NavigationAction|
            {
                &&& dominant(vision.detections(), a)
                &&& r.path_status.status@ == path_label(vision.detections().len(), a)
                &&& r.path_status.color@ == path_color(vision.detections().len(), a)
                &&& r.navigation.action@ == action_name(a)
                &&& r.navigation.speed == advisory_speed(a)
            },
        r.path_status.obstacles == vision.detections().len(),
        r.navigation.heading == motors@.heading,
        r.navigation.distance_to_goal == (if planner.goal() is Some {
            Some(GOAL_DISTANCE_MM)
        } else {
            None::<u32>
        }),
        r.timestamp == timestamp_ms,
{
    let image = vision.get_last_frame_base64();
    let detections = vision.get_last_detections();
    let telemetry = vision.get_telemetry();
    let action = vision.get_navigation_command();
    let path_status = path_status_for(detections.len(), action);
    let navigation = navigation_info(action, motors.get_heading(), planner.get_distance_to_goal());
    FrameData { image, detections, telemetry, path_status, navigation, timestamp: timestamp_ms }
}

/// Builds the periodic broadcast message from the perception state, stamped
/// `timestamp_ms`.
pub fn broadcast_message(vision: &VisionSystem, timestamp_ms: u64) -> (r: BroadcastMessage)
    ensures
        r.image@ == vision.image(),
        r.detections@ == vision.detections(),
        r.timestamp == timestamp_ms,
        r.status@ == "success"@,
        r.detection_count == vision.detections().len(),
{
    let image = vision.get_last_frame_base64();
    let detections = vision.get_last_detections();
    let detection_count = detections.len();
    BroadcastMessage {
        image,
        detections,
        timestamp: timestamp_ms,
        status: "success".to_owned(),
        detection_count,
    }
}

} // verus!
