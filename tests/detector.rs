use rover::cv::Rect;
use rover::imx500_yolov8::{
    calculate_real_distance, parse_bbox, Detection, DetectionResult, IMX500YoloV8,
};

fn det(name: &str, distance: u32) -> Detection {
    Detection {
        class_name: name.to_string(),
        confidence: 850,
        bbox: Rect::new(1, 2, 3, 4),
        distance_estimate: distance,
    }
}

#[test]
fn sensor_distance_table() {
    assert_eq!(calculate_real_distance(100, &"person".to_string()), 8500);
    assert_eq!(calculate_real_distance(100, &"bus".to_string()), 15000);
    assert_eq!(calculate_real_distance(100, &"truck".to_string()), 15000);
    assert_eq!(calculate_real_distance(100, &"dog".to_string()), 2500);
    assert_eq!(calculate_real_distance(100, &"cat".to_string()), 1250);
    assert_eq!(calculate_real_distance(100, &"bottle".to_string()), 2500);
    assert_eq!(calculate_real_distance(0, &"cat".to_string()), 10000);
}

#[test]
fn bbox_literals() {
    assert_eq!(parse_bbox("[100,200,50,100]"), Some((100, 200, 50, 100)));
    assert_eq!(parse_bbox("1,2,3,4"), Some((1, 2, 3, 4)));
    assert_eq!(parse_bbox("[[-5,+6,7,8]]"), Some((-5, 6, 7, 8)));
    assert_eq!(parse_bbox("[2147483647,-2147483648,0,0]"), Some((i32::MAX, i32::MIN, 0, 0)));
}

#[test]
fn bbox_rejections() {
    assert_eq!(parse_bbox("[1,2,3]"), None);
    assert_eq!(parse_bbox("[1,2,3,4,5]"), None);
    assert_eq!(parse_bbox("[1, 2,3,4]"), None);
    assert_eq!(parse_bbox("[1,2,,4]"), None);
    assert_eq!(parse_bbox("[a,2,3,4]"), None);
    assert_eq!(parse_bbox("[2147483648,0,0,0]"), None);
    assert_eq!(parse_bbox(""), None);
    assert_eq!(parse_bbox("[]"), None);
}

#[test]
fn successful_capture_is_kept() {
    let mut d = IMX500YoloV8::new();
    let out = d.capture_and_detect(Some(DetectionResult {
        status: "success".to_string(),
        detections: vec![det("person", 1200), det("chair", 3000)],
    }));
    assert_eq!(out.len(), 2);
    assert_eq!(out[0].class_name, "person");
    assert_eq!(d.last_detections(), out);
}

#[test]
fn failed_or_empty_capture_clears() {
    let mut d = IMX500YoloV8::new();
    d.capture_and_detect(Some(DetectionResult { status: "success".to_string(), detections: vec![det("cat", 10)] }));
    assert!(d.capture_and_detect(Some(DetectionResult { status: "error".to_string(), detections: vec![det("cat", 10)] })).is_empty());
    assert!(d.last_detections().is_empty());
    d.capture_and_detect(Some(DetectionResult { status: "success".to_string(), detections: vec![det("cat", 10)] }));
    assert!(d.capture_and_detect(Some(DetectionResult { status: "success".to_string(), detections: vec![] })).is_empty());
    d.capture_and_detect(Some(DetectionResult { status: "success".to_string(), detections: vec![det("cat", 10)] }));
    assert!(d.capture_and_detect(None).is_empty());
    assert!(d.last_detections().is_empty());
}

