use vstd::prelude::*;

verus! {

/// Error of the vision-library surface, carrying its message.
#[derive(Debug, Clone, PartialEq, Eq)]
pub struct Error(pub String);

/// Image size in pixels.
#[derive(Debug, Clone, Copy, PartialEq, Eq, Structural)]
pub struct Size {
    pub width: i32,
    pub height: i32,
}

impl Size {
    pub fn new(width: i32, height: i32) -> (r: Size)
        ensures
            r == (Size { width, height }),
    {
        Size { width, height }
    }
}

/// Axis-aligned rectangle in pixels: top-left corner and extent.
#[derive(Debug, Clone, Copy, PartialEq, Eq, Structural)]
pub struct Rect {
    pub x: i32,
    pub y: i32,
    pub width: i32,
    pub height: i32,
}

impl Rect {
    pub fn new(x: i32, y: i32, width: i32, height: i32) -> (r: Rect)
        ensures
            r == (Rect { x, y, width, height }),
    {
        Rect { x, y, width, height }
    }
}

/// Matrix header of the vision library: the dimensions of an image or tensor.
/// Pixel storage belongs to the native library and is not modelled here.
#[derive(Debug, Clone, Copy, PartialEq, Eq, Structural)]
pub struct Mat {
    pub rows: i32,
    pub cols: i32,
}

impl Mat {
    /// An empty matrix.
    pub fn new() -> (r: Result<Mat, Error>)
        ensures
            r == Ok::<Mat, Error>(Mat { rows: 0, cols: 0 }),
    {
        Ok(Mat { rows: 0, cols: 0 })
    }

    /// An empty matrix.
    pub fn default() -> (r: Mat)
        ensures
            r == (Mat { rows: 0, cols: 0 }),
    {
        Mat { rows: 0, cols: 0 }
    }

    pub fn rows(&self) -> (r: i32)
        ensures
            r == self.rows,
    {
        self.rows
    }

    pub fn cols(&self) -> (r: i32)
        ensures
            r == self.cols,
    {
        self.cols
    }
}

/// Resizing is delegated to the native library; without it the destination
/// is left as it is and the call succeeds.
pub fn resize(src: &Mat, dst: &mut Mat, size: Size) -> (r: Result<(), Error>)
    ensures
        r is Ok,
        *final(dst) == *old(dst),
{
    Ok(())
}

/// Image decoding is delegated to the native library; without it every read
/// yields an empty matrix.
pub fn imread(filename: &str) -> (r: Mat)
    ensures
        r == (Mat { rows: 0, cols: 0 }),
{
    Mat::default()
}

/// Image encoding is delegated to the native library; without it every write
/// reports success.
pub fn imwrite(filename: &str, img: &Mat) -> (r: bool)
    ensures
        r,
{
    true
}

} // verus!
