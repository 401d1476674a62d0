use vstd::prelude::*;
use crate::cv::Rect;
use crate::vision::same_text;
use vstd::string::StrSliceExecFns;

verus! {

/// One object reported by the on-sensor detector service.
#[derive(Debug, Clone, PartialEq, Eq)]
pub struct Detection {
    pub class_name: String,
    /// Confidence in thousandths.
    pub confidence: u16,
    /// Bounding box in pixels.
    pub bbox: Rect,
    /// Estimated distance in millimetres.
    pub distance_estimate: u32,
}

/// The detector service's answer to one capture request.
#[derive(Debug, Clone, PartialEq, Eq)]
pub struct DetectionResult {
    pub status: String,
    pub detections: Vec<Detection>,
}

/// Real-world height of an object of the given class for the on-sensor
/// detector, in millimetres.
pub open spec fn sensor_class_height_mm(class_name: Seq<char>) -> nat {
    if class_name == "person"@ {
        1700
    } else if class_name == "car"@ {
        1500
    } else if class_name == "truck"@ || class_name == "bus"@ {
        3000
    } else if class_name == "bicycle"@ {
        1000
    } else if class_name == "chair"@ {
        800
    } else if class_name == "dog"@ {
        500
    } else if class_name == "cat"@ {
        250
    } else {
        500
    }
}

/// Focal length of the sensor, in pixels.
pub const SENSOR_FOCAL_LENGTH_PX: u32 = 500;

/// Distance reported for an object whose box has no height, in millimetres.
pub const SENSOR_FAR_DISTANCE_MM: u32 = 10000;

/// Pinhole-camera distance estimate in millimetres (rounded down).
pub open spec fn sensor_distance_mm(box_height: int, class_name: Seq<char>) -> nat {
    if box_height > 0 {
        (sensor_class_height_mm(class_name) * SENSOR_FOCAL_LENGTH_PX as nat) / (box_height as nat)
    } else {
        SENSOR_FAR_DISTANCE_MM as nat
    }
}

/// Estimated distance in millimetres to an object of `class_name` whose box
/// is `bbox_height` pixels tall.
pub fn calculate_real_distance(bbox_height: i32, class_name: &String) -> (r: u32)
    ensures
        r as nat == sensor_distance_mm(bbox_height as int, class_name@),
{
    let real_height: u32 = if same_text(class_name, "person") {
        1700
    } else if same_text(class_name, "car") {
        1500
    } else if same_text(class_name, "truck") || same_text(class_name, "bus") {
        3000
    } else if same_text(class_name, "bicycle") {
        1000
    } else if same_text(class_name, "chair") {
        800
    } else if same_text(class_name, "dog") {
        500
    } else if same_text(class_name, "cat") {
        250
    } else {
        500
    };
    if bbox_height > 0 {
        (SENSOR_FOCAL_LENGTH_PX * real_height) / (bbox_height as u32)
    } else {
        SENSOR_FAR_DISTANCE_MM
    }
}

/// The detections that an answer of the service yields: its detections when
/// it reports success with at least one, none otherwise (also when no answer
/// could be read).
pub open spec fn accepted(result: Option<DetectionResult>) -> Seq<Detection> {
    match result {
        Some(res) => if res.status@ == "success"@ && res.detections@.len() > 0 {
            res.detections@
        } else {
            Seq::empty()
        },
        None => Seq::empty(),
    }
}

/// Detector driven by an on-sensor inference service; holds the detections of
/// the last capture.
pub struct IMX500YoloV8 {
    detections: Vec<Detection>,
}

impl IMX500YoloV8 {
    pub closed spec fn detections(&self) -> Seq<Detection> {
        self.detections@
    }

    pub fn new() -> (r: IMX500YoloV8)
        ensures
            r.detections().len() == 0,
    {
        IMX500YoloV8 { detections: Vec::new() }
    }

    /// Takes in the service's answer to one capture (`None` when the service
    /// failed or its output did not decode), stores the detections it yields
    /// and returns them.
    pub fn capture_and_detect(&mut self, result: Option<DetectionResult>) -> (r: Vec<Detection>)
        ensures
            r@ == accepted(result),
            final(self).detections() == accepted(result),
    {
        match result {
            Some(res) => {
                if same_text(&res.status, "success") && res.detections.len() > 0 {
                    let kept = copy_all(&res.detections);
                    self.detections = res.detections;
                    return kept;
                }
                self.detections = Vec::new();
                Vec::new()
            },
            None => {
                self.detections = Vec::new();
                Vec::new()
            },
        }
    }

    /// The detections of the last capture.
    pub fn last_detections(&self) -> (r: Vec<Detection>)
        ensures
            r@ == self.detections(),
    {
        copy_all(&self.detections)
    }
}

fn copy_one(d: &Detection) -> (r: Detection)
    ensures
        r == *d,
{
    Detection {
        class_name: d.class_name.clone(),
        confidence: d.confidence,
        bbox: d.bbox,
        distance_estimate: d.distance_estimate,
    }
}

fn copy_all(v: &Vec<Detection>) -> (r: Vec<Detection>)
    ensures
        r@ == v@,
{
    let mut r: Vec<Detection> = Vec::new();
    let mut i: usize = 0;
    while i < v.len()
        invariant
            i <= v.len(),
            r@ == v@.subrange(0, i as int),
        decreases v.len() - i,
    {
        r.push(copy_one(&v[i]));
        i = i + 1;
    }
    assert(v@.subrange(0, v@.len() as int) == v@);
    r
}

/// `c` is one of the brackets around a box literal.
pub open spec fn is_bracket(c: char) -> bool {
    c == '[' || c == ']'
}

/// `s` without its leading brackets.
pub open spec fn strip_front(s: Seq<char>) -> Seq<char>
    decreases s.len(),
{
    if s.len() > 0 && is_bracket(s[0]) {
        strip_front(s.drop_first())
    } else {
        s
    }
}

/// `s` without its trailing brackets.
pub open spec fn strip_back(s: Seq<char>) -> Seq<char>
    decreases s.len(),
{
    if s.len() > 0 && is_bracket(s.last()) {
        strip_back(s.drop_last())
    } else {
        s
    }
}

/// The pieces of `s` between commas; an empty `s` is one empty piece.
pub open spec fn split_commas(s: Seq<char>) -> Seq<Seq<char>>
    decreases s.len(),
{
    if s.len() == 0 {
        seq![Seq::empty()]
    } else {
        let p = split_commas(s.drop_last());
        if s.last() == ',' {
            p.push(Seq::empty())
        } else {
            p.update(p.len() - 1, p.last().push(s.last()))
        }
    }
}

/// `s` is a non-empty run of ASCII digits.
pub open spec fn is_digits(s: Seq<char>) -> bool {
    s.len() > 0 && forall|i: int| 0 <= i < s.len() ==> '0' <= #[trigger] s[i] <= '9'
}

/// Decimal value of a run of ASCII digits.
pub open spec fn digits_value(s: Seq<char>) -> int
    decreases s.len(),
{
    if s.len() == 0 {
        0
    } else {
        digits_value(s.drop_last()) * 10 + (s.last() as int - '0' as int)
    }
}

/// A decimal `i32`: an optional `+` or `-`, then digits, and a value in range.
pub open spec fn parsed_i32(s: Seq<char>) -> Option<i32> {
    let neg = s.len() > 0 && s[0] == '-';
    let body = if s.len() > 0 && (s[0] == '-' || s[0] == '+') { s.drop_first() } else { s };
    let v = if neg { -digits_value(body) } else { digits_value(body) };
    if is_digits(body) && i32::MIN <= v <= i32::MAX {
        Some(v as i32)
    } else {
        None
    }
}

/// A box literal `[x,y,w,h]`: brackets trimmed from both ends, then exactly
/// four comma-separated decimal integers.
pub open spec fn bbox_of(s: Seq<char>) -> Option<(i32, i32, i32, i32)> {
    let parts = split_commas(strip_back(strip_front(s)));
    if parts.len() == 4 && parsed_i32(parts[0]) is Some && parsed_i32(parts[1]) is Some
        && parsed_i32(parts[2]) is Some && parsed_i32(parts[3]) is Some {
        Some(
            (
                parsed_i32(parts[0])->0,
                parsed_i32(parts[1])->0,
                parsed_i32(parts[2])->0,
                parsed_i32(parts[3])->0,
            ),
        )
    } else {
        None
    }
}

/// Relies on `i32`'s `FromStr` (`str::parse::<i32>`): it accepts an optional
/// `+` or `-` followed by ASCII digits whose value fits, and fails otherwise.
#[verifier::external_body]
fn parse_i32(cs: &Vec<char>) -> (r: Option<i32>)
    ensures
        r == parsed_i32(cs@),
{
    let s: String = cs.iter().collect();
    s.parse::<i32>().ok()
}

proof fn lemma_strip_front_suffix(s: Seq<char>)
    ensures
        exists|k: int| 0 <= k <= s.len() && strip_front(s) == s.subrange(k, s.len() as int)
            && (forall|j: int| 0 <= j < k ==> is_bracket(#[trigger] s[j]))
            && (k < s.len() ==> !is_bracket(s[k])),
    decreases s.len(),
{
    if s.len() > 0 && is_bracket(s[0]) {
        lemma_strip_front_suffix(s.drop_first());
        let k = choose|k: int| 0 <= k <= s.drop_first().len() && strip_front(s.drop_first())
            == s.drop_first().subrange(k, s.drop_first().len() as int)
            && (forall|j: int| 0 <= j < k ==> is_bracket(#[trigger] s.drop_first()[j]))
            && (k < s.drop_first().len() ==> !is_bracket(s.drop_first()[k]));
        assert(strip_front(s) == s.subrange(k + 1, s.len() as int));
        assert forall|j: int| 0 <= j < k + 1 implies is_bracket(#[trigger] s[j]) by {
            if j > 0 {
                assert(s[j] == s.drop_first()[j - 1]);
            }
        }
    } else {
        assert(strip_front(s) == s.subrange(0, s.len() as int));
    }
}

proof fn lemma_strip_back_prefix(s: Seq<char>)
    ensures
        exists|k: int| 0 <= k <= s.len() && strip_back(s) == s.subrange(0, k)
            && (forall|j: int| k <= j < s.len() ==> is_bracket(#[trigger] s[j]))
            && (k > 0 ==> !is_bracket(s[k - 1])),
    decreases s.len(),
{
    if s.len() > 0 && is_bracket(s.last()) {
        lemma_strip_back_prefix(s.drop_last());
        let k = choose|k: int| 0 <= k <= s.drop_last().len() && strip_back(s.drop_last())
            == s.drop_last().subrange(0, k)
            && (forall|j: int| k <= j < s.drop_last().len() ==> is_bracket(#[trigger] s.drop_last()[j]))
            && (k > 0 ==> !is_bracket(s.drop_last()[k - 1]));
        assert(strip_back(s) == s.subrange(0, k));
        assert forall|j: int| k <= j < s.len() implies is_bracket(#[trigger] s[j]) by {
            if j < s.len() - 1 {
                assert(s[j] == s.drop_last()[j]);
            }
        }
        if k > 0 {
            assert(s[k - 1] == s.drop_last()[k - 1]);
        }
    } else {
        assert(strip_back(s) == s.subrange(0, s.len() as int));
    }
}

fn chars_of(s: &str) -> (r: Vec<char>)
    ensures
        r@ == s@,
{
    let n = s.unicode_len();
    let mut r: Vec<char> = Vec::new();
    let mut i: usize = 0;
    while i < n
        invariant
            n == s@.len(),
            i <= n,
            r@ == s@.subrange(0, i as int),
        decreases n - i,
    {
        r.push(s.get_char(i));
        i = i + 1;
    }
    assert(s@.subrange(0, n as int) == s@);
    r
}

/// Reads a box literal `[x,y,w,h]`; `None` unless it holds exactly four
/// decimal integers.
pub fn parse_bbox(bbox_str: &str) -> (r: Option<(i32, i32, i32, i32)>)
    ensures
        r == bbox_of(bbox_str@),
{
    let cs = chars_of(bbox_str);
    let mut lo: usize = 0;
    while lo < cs.len() && (cs[lo] == '[' || cs[lo] == ']')
        invariant
            lo <= cs.len(),
            forall|j: int| 0 <= j < lo ==> is_bracket(#[trigger] cs@[j]),
        decreases cs.len() - lo,
    {
        lo = lo + 1;
    }
    proof {
        lemma_strip_front_suffix(cs@);
        let k = choose|k: int| 0 <= k <= cs@.len() && strip_front(cs@) == cs@.subrange(k, cs@.len() as int)
            && (forall|j: int| 0 <= j < k ==> is_bracket(#[trigger] cs@[j]))
            && (k < cs@.len() ==> !is_bracket(cs@[k]));
        if k < lo {
            assert(is_bracket(cs@[k]));
        }
        if lo < k {
            assert(is_bracket(cs@[lo as int]));
        }
        assert(strip_front(cs@) == cs@.subrange(lo as int, cs@.len() as int));
    }
    let ghost front = cs@.subrange(lo as int, cs@.len() as int);
    let mut hi: usize = cs.len();
    while hi > lo && (cs[hi - 1] == '[' || cs[hi - 1] == ']')
        invariant
            lo <= hi <= cs.len(),
            forall|j: int| hi <= j < cs.len() ==> is_bracket(#[trigger] cs@[j]),
        decreases hi - lo,
    {
        hi = hi - 1;
    }
    proof {
        lemma_strip_back_prefix(front);
        let k = choose|k: int| 0 <= k <= front.len() && strip_back(front) == front.subrange(0, k)
            && (forall|j: int| k <= j < front.len() ==> is_bracket(#[trigger] front[j]))
            && (k > 0 ==> !is_bracket(front[k - 1]));
        let h = hi - lo;
        if k < h {
            assert(is_bracket(front[h - 1]));
            assert(front[h - 1] == cs@[hi - 1]);
        }
        if h < k {
            assert(front[k - 1] == cs@[lo + k - 1]);
            assert(is_bracket(cs@[lo + k - 1]));
        }
        assert(k == h);
        assert(strip_back(front) =~= cs@.subrange(lo as int, hi as int));
    }
    let ghost t = cs@.subrange(lo as int, hi as int);
    let mut fields: Vec<Vec<char>> = Vec::new();
    let mut cur: Vec<char> = Vec::new();
    let mut i: usize = lo;
    while i < hi
        invariant
            lo <= i <= hi <= cs.len(),
            t == cs@.subrange(lo as int, hi as int),
            fields@.map_values(|v: Vec<char>| v@).push(cur@) == split_commas(t.subrange(0, i - lo)),
        decreases hi - i,
    {
        let ghost before = t.subrange(0, i - lo);
        assert(t.subrange(0, i + 1 - lo).drop_last() == before);
        if cs[i] == ',' {
            let done = cur;
            fields.push(done);
            cur = Vec::new();
            assert(fields@.map_values(|v: Vec<char>| v@).push(cur@) =~= split_commas(before).push(
                Seq::empty(),
            ));
        } else {
            cur.push(cs[i]);
            assert(fields@.map_values(|v: Vec<char>| v@).push(cur@) =~= split_commas(before).update(
                split_commas(before).len() - 1,
                split_commas(before).last().push(cs@[i as int]),
            ));
        }
        i = i + 1;
    }
    assert(t.subrange(0, hi - lo) == t);
    fields.push(cur);
    let ghost parts = split_commas(t);
    assert(fields@.map_values(|v: Vec<char>| v@) == parts);
    if fields.len() != 4 {
        return None;
    }
    assert(fields@[0]@ == parts[0]);
    assert(fields@[1]@ == parts[1]);
    assert(fields@[2]@ == parts[2]);
    assert(fields@[3]@ == parts[3]);
    let x = match parse_i32(&fields[0]) {
        Some(v) => v,
        None => return None,
    };
    let y = match parse_i32(&fields[1]) {
        Some(v) => v,
        None => return None,
    };
    let w = match parse_i32(&fields[2]) {
        Some(v) => v,
        None => return None,
    };
    let h = match parse_i32(&fields[3]) {
        Some(v) => v,
        None => return None,
    };
    Some((x, y, w, h))
}

} // verus!
