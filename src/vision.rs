use vstd::prelude::*;
use crate::cv::Rect;
use crate::bridge::{BridgeFrame, IMX500Detection, try_next_frame};

verus! {

/// Safety action derived from one detection, ordered by increasing severity.
#[derive(Debug, Clone, Copy, PartialEq, Eq, Structural, PartialOrd, Ord, Hash)]
pub enum NavigationAction {
    Continue,
    SlowDown,
    Stop,
    EmergencyStop,
}

/// Severity rank of an action: `Continue < SlowDown < Stop < EmergencyStop`.
pub open spec fn severity(a: NavigationAction) -> nat {
    match a {
        NavigationAction::Continue => 0,
        NavigationAction::SlowDown => 1,
        NavigationAction::Stop => 2,
        NavigationAction::EmergencyStop => 3,
    }
}

/// The variant's name as text.
pub open spec fn action_name(a: NavigationAction) -> Seq<char> {
    match a {
        NavigationAction::Continue => "Continue"@,
        NavigationAction::SlowDown => "SlowDown"@,
        NavigationAction::Stop => "Stop"@,
        NavigationAction::EmergencyStop => "EmergencyStop"@,
    }
}

impl NavigationAction {
    pub fn severity(&self) -> (r: u8)
        ensures
            r as nat == severity(*self),
    {
        match self {
            NavigationAction::Continue => 0,
            NavigationAction::SlowDown => 1,
            NavigationAction::Stop => 2,
            NavigationAction::EmergencyStop => 3,
        }
    }

    pub fn name(&self) -> (r: String)
        ensures
            r@ == action_name(*self),
    {
        match self {
            NavigationAction::Continue => "Continue".to_owned(),
            NavigationAction::SlowDown => "SlowDown".to_owned(),
            NavigationAction::Stop => "Stop".to_owned(),
            NavigationAction::EmergencyStop => "EmergencyStop".to_owned(),
        }
    }
}

/// Focal length of the camera, in pixels.
pub const FOCAL_LENGTH_PX: u32 = 500;

/// Distance reported for an object whose box has no height, in millimetres.
pub const FAR_DISTANCE_MM: u32 = 10000;

/// Real-world height of an object of the given class, in millimetres.
pub open spec fn class_height_mm(class_name: Seq<char>) -> nat {
    if class_name == "person"@ {
        1700
    } else if class_name == "car"@ {
        1500
    } else if class_name == "truck"@ {
        3000
    } else if class_name == "bicycle"@ {
        1000
    } else if class_name == "chair"@ {
        800
    } else if class_name == "bottle"@ {
        250
    } else {
        500
    }
}

/// Pinhole-camera distance estimate, in millimetres (rounded down), from the
/// height of the bounding box in pixels.
pub open spec fn distance_mm(box_height: int, class_name: Seq<char>) -> nat {
    if box_height > 0 {
        (class_height_mm(class_name) * FOCAL_LENGTH_PX as nat) / (box_height as nat)
    } else {
        FAR_DISTANCE_MM as nat
    }
}

/// The safety action for an object of the given class at the given distance.
/// People get wider margins than other objects.
pub open spec fn action_for(class_name: Seq<char>, distance: nat) -> NavigationAction {
    if class_name == "person"@ && distance < 1000 {
        NavigationAction::EmergencyStop
    } else if class_name == "person"@ && distance < 2000 {
        NavigationAction::Stop
    } else if class_name == "person"@ && distance < 3000 {
        NavigationAction::SlowDown
    } else if class_name != "person"@ && distance < 1500 {
        NavigationAction::Stop
    } else if distance < 3000 {
        NavigationAction::SlowDown
    } else {
        NavigationAction::Continue
    }
}

/// `s` holds exactly the text `lit`.
pub(crate) fn same_text(s: &String, lit: &str) -> (r: bool)
    ensures
        r == (s@ == lit@),
{
    let t = lit.to_owned();
    *s == t
}

/// Estimated distance in millimetres to an object of `class_name` whose
/// bounding box is `box_height` pixels tall.
pub fn calculate_distance(box_height: i32, class_name: &String) -> (r: u32)
    ensures
        r as nat == distance_mm(box_height as int, class_name@),
{
    let real_height: u32 = if same_text(class_name, "person") {
        1700
    } else if same_text(class_name, "car") {
        1500
    } else if same_text(class_name, "truck") {
        3000
    } else if same_text(class_name, "bicycle") {
        1000
    } else if same_text(class_name, "chair") {
        800
    } else if same_text(class_name, "bottle") {
        250
    } else {
        500
    };
    if box_height > 0 {
        (real_height * FOCAL_LENGTH_PX) / (box_height as u32)
    } else {
        FAR_DISTANCE_MM
    }
}

/// The safety action for an object of `class_name` at `distance` millimetres.
pub fn determine_action(class_name: &String, distance: u32) -> (r: NavigationAction)
    ensures
        r == action_for(class_name@, distance as nat),
{
    let person = same_text(class_name, "person");
    if person && distance < 1000 {
        NavigationAction::EmergencyStop
    } else if person && distance < 2000 {
        NavigationAction::Stop
    } else if person && distance < 3000 {
        NavigationAction::SlowDown
    } else if !person && distance < 1500 {
        NavigationAction::Stop
    } else if distance < 3000 {
        NavigationAction::SlowDown
    } else {
        NavigationAction::Continue
    }
}

/// One recognised object with its estimated distance and safety action.
#[derive(Debug, Clone, PartialEq, Eq)]
pub struct Detection {
    pub class_name: String,
    /// Confidence in thousandths.
    pub confidence: u16,
    /// Bounding box in pixels.
    pub bbox: Rect,
    /// Estimated distance in millimetres.
    pub distance_estimate: u32,
    pub action: NavigationAction,
}

/// The detection that a detector report becomes.
pub open spec fn detection_of(d: IMX500Detection) -> Detection {
    Detection {
        class_name: d.class,
        confidence: d.conf,
        bbox: Rect { x: d.x, y: d.y, width: d.w, height: d.h },
        distance_estimate: distance_mm(d.h as int, d.class@) as u32,
        action: action_for(d.class@, distance_mm(d.h as int, d.class@)),
    }
}

/// The detections that a frame's reports become, in the order reported.
pub open spec fn frame_detections(f: BridgeFrame) -> Seq<Detection> {
    f.imx500_basic@.map_values(|d: IMX500Detection| detection_of(d))
}

/// `i` is the first position holding a detection at the least distance.
pub open spec fn is_first_nearest(s: Seq<Detection>, i: int) -> bool {
    &&& 0 <= i < s.len()
    &&& forall|j: int| 0 <= j < s.len() ==> s[i].distance_estimate <= #[trigger] s[j].distance_estimate
    &&& forall|j: int| 0 <= j < i ==> s[i].distance_estimate < #[trigger] s[j].distance_estimate
}

/// The action that governs a set of detections: that of the nearest one, the
/// first of equals winning; `Continue` when there is none.
pub open spec fn dominant(s: Seq<Detection>, a: NavigationAction) -> bool {
    if s.len() == 0 {
        a == NavigationAction::Continue
    } else {
        exists|i: int| is_first_nearest(s, i) && s[i].action == a
    }
}

/// The detection that a detector report becomes.
pub fn detection_from(d: &IMX500Detection) -> (r: Detection)
    ensures
        r == detection_of(*d),
{
    let distance = calculate_distance(d.h, &d.class);
    let action = determine_action(&d.class, distance);
    Detection {
        class_name: d.class.clone(),
        confidence: d.conf,
        bbox: Rect { x: d.x, y: d.y, width: d.w, height: d.h },
        distance_estimate: distance,
        action,
    }
}

fn copy_detection(d: &Detection) -> (r: Detection)
    ensures
        r == *d,
{
    Detection {
        class_name: d.class_name.clone(),
        confidence: d.confidence,
        bbox: d.bbox,
        distance_estimate: d.distance_estimate,
        action: d.action,
    }
}

/// An element-by-element copy of a detection list.
pub fn copy_detections(v: &[Detection]) -> (r: Vec<Detection>)
    ensures
        r@ == v@,
{
    let mut r: Vec<Detection> = Vec::new();
    let mut i: usize = 0;
    while i < v.len()
        invariant
            i <= v.len(),
            r@ == v@.subrange(0, i as int),
        decreases v.len() - i,
    {
        r.push(copy_detection(&v[i]));
        i = i + 1;
    }
    assert(v@.subrange(0, v@.len() as int) == v@);
    r
}

/// The safety action of the nearest detection (the first of equals), or
/// `Continue` when there are none.
pub fn dominant_action(detections: &Vec<Detection>) -> (r: NavigationAction)
    ensures
        dominant(detections@, r),
{
    if detections.len() == 0 {
        return NavigationAction::Continue;
    }
    let mut best: usize = 0;
    let mut i: usize = 1;
    while i < detections.len()
        invariant
            1 <= i <= detections.len(),
            is_first_nearest(detections@.subrange(0, i as int), best as int),
        decreases detections.len() - i,
    {
        if detections[i].distance_estimate < detections[best].distance_estimate {
            best = i;
        }
        assert(is_first_nearest(detections@.subrange(0, i + 1), best as int));
        i = i + 1;
    }
    assert(detections@.subrange(0, detections@.len() as int) == detections@);
    detections[best].action
}

/// Statistics of the perception pipeline.
#[derive(Debug, Clone, Copy, PartialEq, Eq, Structural)]
pub struct VisionTelemetry {
    pub frame_count: u64,
    /// Nominal frame rate, in frames per second.
    pub fps: u32,
    /// Nominal inference time, in milliseconds.
    pub inference_time_ms: u32,
    pub processing: bool,
}

/// Nominal frame rate reported in telemetry.
pub const NOMINAL_FPS: u32 = 30;

/// Nominal inference time reported in telemetry, in milliseconds.
pub const NOMINAL_INFERENCE_MS: u32 = 15;

/// Perception state: the latest detections and source image, fed by the
/// frame bridge's queue.
pub struct VisionSystem {
    frame_receiver: crossbeam_channel::Receiver<BridgeFrame>,
    last_detections: Vec<Detection>,
    last_frame_base64: String,
    frame_count: u64,
}

/// A counter that stops at its largest value.
pub open spec fn bumped(n: u64) -> u64 {
    if n < u64::MAX {
        (n + 1) as u64
    } else {
        n
    }
}

impl VisionSystem {
    /// The detections last seen.
    pub closed spec fn detections(&self) -> Seq<Detection> {
        self.last_detections@
    }

    /// The image last seen.
    pub closed spec fn image(&self) -> Seq<char> {
        self.last_frame_base64@
    }

    /// How many ticks have polled the bridge.
    pub closed spec fn frames(&self) -> u64 {
        self.frame_count
    }

    /// What a tick that received `frame` from the bridge does, returning `r`.
    pub open spec fn ingested(
        old: VisionSystem,
        new: VisionSystem,
        frame: Option<BridgeFrame>,
        r: Seq<Detection>,
    ) -> bool {
        &&& new.frames() == bumped(old.frames())
        &&& r == new.detections()
        &&& match frame {
            None => new.detections() == old.detections() && new.image() == old.image(),
            Some(f) => new.detections() == frame_detections(f) && new.image() == f.jpeg_base64@,
        }
    }

    /// A perception state with no detections and no image, reading frames
    /// from `frame_receiver`.
    pub fn new(frame_receiver: crossbeam_channel::Receiver<BridgeFrame>) -> (r: VisionSystem)
        ensures
            r.detections().len() == 0,
            r.image().len() == 0,
            r.frames() == 0,
    {
        VisionSystem {
            frame_receiver,
            last_detections: Vec::new(),
            last_frame_base64: String::new(),
            frame_count: 0,
        }
    }

    /// Replaces detections and image together.
    pub fn update(&mut self, new_detections: Vec<Detection>, new_image: String)
        ensures
            final(self).detections() == new_detections@,
            final(self).image() == new_image@,
            final(self).frames() == old(self).frames(),
    {
        self.last_detections = new_detections;
        self.last_frame_base64 = new_image;
    }

    /// One tick's perception step on what the bridge handed over: a new frame
    /// replaces the detections and image; no frame keeps the last ones.
    /// Returns the detections now current.
    pub fn ingest(&mut self, frame: Option<BridgeFrame>) -> (r: Vec<Detection>)
        ensures
            VisionSystem::ingested(*old(self), *final(self), frame, r@),
    {
        if self.frame_count < u64::MAX {
            self.frame_count = self.frame_count + 1;
        }
        match frame {
            None => copy_detections(self.last_detections.as_slice()),
            Some(f) => {
                let mut all: Vec<Detection> = Vec::new();
                let mut i: usize = 0;
                while i < f.imx500_basic.len()
                    invariant
                        i <= f.imx500_basic.len(),
                        all@ == frame_detections(f).subrange(0, i as int),
                    decreases f.imx500_basic.len() - i,
                {
                    all.push(detection_from(&f.imx500_basic[i]));
                    i = i + 1;
                }
                assert(all@ == frame_detections(f));
                let out = copy_detections(all.as_slice());
                self.update(all, f.jpeg_base64);
                out
            },
        }
    }

    /// Polls the bridge without blocking and runs this tick's perception step
    /// on whatever it handed over.
    pub fn process_frame(&mut self) -> (r: Vec<Detection>)
        ensures
            exists|frame: Option<BridgeFrame>|
                VisionSystem::ingested(*old(self), *final(self), frame, r@),
    {
        let frame = self.poll_frame();
        let r = self.ingest(frame);
        r
    }

    /// The next queued frame, if one is ready; never blocks.
    pub fn poll_frame(&self) -> (r: Option<BridgeFrame>) {
        try_next_frame(&self.frame_receiver)
    }

    pub fn get_last_detections(&self) -> (r: Vec<Detection>)
        ensures
            r@ == self.detections(),
    {
        copy_detections(self.last_detections.as_slice())
    }

    pub fn get_last_frame_base64(&self) -> (r: String)
        ensures
            r@ == self.image(),
    {
        self.last_frame_base64.clone()
    }

    /// The safety action of the nearest current detection.
    pub fn get_navigation_command(&self) -> (r: NavigationAction)
        ensures
            dominant(self.detections(), r),
    {
        dominant_action(&self.last_detections)
    }

    pub fn get_telemetry(&self) -> (r: VisionTelemetry)
        ensures
            r == (VisionTelemetry {
                frame_count: self.frames(),
                fps: NOMINAL_FPS,
                inference_time_ms: NOMINAL_INFERENCE_MS,
                processing: true,
            }),
    {
        VisionTelemetry {
            frame_count: self.frame_count,
            fps: NOMINAL_FPS,
            inference_time_ms: NOMINAL_INFERENCE_MS,
            processing: true,
        }
    }
}

} // verus!
