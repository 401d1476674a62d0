use vstd::prelude::*;

verus! {

/// One object reported by the external detector, in the detector's own terms.
#[derive(Debug, Clone, PartialEq, Eq)]
pub struct IMX500Detection {
    pub class: String,
    /// Confidence in thousandths.
    pub conf: u16,
    pub x: i32,
    pub y: i32,
    pub w: i32,
    pub h: i32,
}

/// One decoded line of the external detector's output.
#[derive(Debug, Clone, PartialEq, Eq)]
pub struct BridgeFrame {
    pub frame_id: u32,
    /// The source image, base64-encoded JPEG, passed through untouched.
    pub jpeg_base64: String,
    /// Capture time in milliseconds.
    pub timestamp_ms: u64,
    pub imx500_basic: Vec<IMX500Detection>,
}

/// crossbeam_channel's receiving end, held opaque: the queue from the
/// reader thread to the control loop.
#[verifier::external_type_specification]
#[verifier::external_body]
#[verifier::reject_recursive_types(T)]
pub struct ExReceiver<T>(crossbeam_channel::Receiver<T>);

/// Relies on crossbeam_channel::Receiver::try_recv: it returns a queued message
/// at once if there is one, and an error (empty or disconnected) otherwise;
/// it never blocks. Which of the two happens depends on the producing thread.
#[verifier::external_body]
pub(crate) fn try_next_frame(
    rx: &crossbeam_channel::Receiver<BridgeFrame>,
) -> (r: Option<BridgeFrame>) {
    rx.try_recv().ok()
}

} // verus!
