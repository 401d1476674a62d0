//! Control core of an autonomous rover: perception state, navigation fusion,
//! actuation with safety clamps, and the client registry for telemetry fan-out.
//!
//! Physical quantities are fixed point: distances in millimetres, speeds in
//! thousandths of full scale, headings in millidegrees, confidences in
//! thousandths.

pub mod bridge;
pub mod control;
pub mod motor_control;
pub mod pathfinding;
pub mod registry;
pub mod telemetry;
pub mod cv;
pub mod imx500_yolov8;
pub mod vision;
