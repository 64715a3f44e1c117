//! Validation owned by the capture worker: the screen-reading device itself
//! lives outside the library; the worker's checks on its inputs and outputs
//! live here.

use vstd::prelude::*;

use crate::decode::PixelBuffer;
use crate::geometry::SelectionRect;

verus! {

/// The addressable region of the screen the capture device reads.
#[derive(Clone, Copy, PartialEq, Eq, Structural, Debug)]
pub struct ScreenBounds {
    pub x: i32,
    pub y: i32,
    pub width: u32,
    pub height: u32,
}

/// Why a capture attempt failed. Both are per-gesture failures: the worker
/// stays usable for the next request.
#[derive(PartialEq, Eq, Debug)]
pub enum CaptureError {
    /// The requested rectangle lies fully outside the addressable screen.
    OutOfBounds,
    /// The device could not produce a frame, with its reason.
    DeviceFailure(String),
}

/// A capture order for the worker, keyed so that a late answer to an old
/// order can be told from the answer to the current one.
#[derive(Clone, Copy, PartialEq, Eq, Structural, Debug)]
pub struct CaptureRequest {
    pub rect: SelectionRect,
    pub request_id: u64,
}

/// Whether the rectangle and the screen share at least one pixel.
pub open spec fn spec_intersects(rect: SelectionRect, screen: ScreenBounds) -> bool {
    &&& rect.origin_x < screen.x + screen.width
    &&& screen.x < rect.origin_x + rect.width
    &&& rect.origin_y < screen.y + screen.height
    &&& screen.y < rect.origin_y + rect.height
}

/// The reason string the orchestrator publishes for a capture failure.
pub open spec fn spec_capture_reason(e: CaptureError) -> Seq<char> {
    match e {
        CaptureError::OutOfBounds => "selection outside the screen"@,
        CaptureError::DeviceFailure(m) => m@,
    }
}

/// Render a capture error as its published reason.
pub fn capture_reason(e: &CaptureError) -> (s: String)
    ensures
        s@ == spec_capture_reason(*e),
{
    match e {
        CaptureError::OutOfBounds => "selection outside the screen".to_owned(),
        CaptureError::DeviceFailure(m) => m.clone(),
    }
}

/// Check a capture rectangle against the screen before the device is asked
/// to read it: a rectangle fully outside the screen is refused.
pub fn validate_request(rect: &SelectionRect, screen: &ScreenBounds) -> (r: Result<
    (),
    CaptureError,
>)
    ensures
        r is Ok <==> spec_intersects(*rect, *screen),
        r matches Err(e) ==> e is OutOfBounds,
{
    let rect_right: i64 = rect.origin_x as i64 + rect.width as i64;
    let rect_bottom: i64 = rect.origin_y as i64 + rect.height as i64;
    let screen_right: i64 = screen.x as i64 + screen.width as i64;
    let screen_bottom: i64 = screen.y as i64 + screen.height as i64;
    if (rect.origin_x as i64) < screen_right && (screen.x as i64) < rect_right && (rect.origin_y
        as i64) < screen_bottom && (screen.y as i64) < rect_bottom {
        Ok(())
    } else {
        Err(CaptureError::OutOfBounds)
    }
}

/// Accept a frame the device handed back for one request: it must have
/// exactly the requested dimensions and hold one RGBA quadruple per
/// pixel; anything else is a device failure, not a buffer the decode
/// stage may see.
pub fn accept_frame(rect: &SelectionRect, data: Vec<u8>, width: u32, height: u32) -> (r: Result<
    PixelBuffer,
    CaptureError,
>)
    ensures
        r matches Ok(b) ==> b.data@ == data@ && b.width == rect.width && b.height == rect.height
            && b.wf(),
        r is Ok <==> width == rect.width && height == rect.height && data@.len() == 4 * width
            * height,
        r matches Err(e) ==> e matches CaptureError::DeviceFailure(m) && m@ == "frame size mismatch"@,
{
    if width != rect.width || height != rect.height {
        return Err(CaptureError::DeviceFailure("frame size mismatch".to_owned()));
    }
    proof {
        let w = width as int;
        let h = height as int;
        assert(w * h <= 0xFFFF_FFFF * 0xFFFF_FFFF && 0 <= w * h && 4 * w * h == 4 * (w * h))
            by (nonlinear_arith)
            requires
                0 <= w <= 0xFFFF_FFFF,
                0 <= h <= 0xFFFF_FFFF,
        ;
    }
    let expected: u128 = 4u128 * (width as u128) * (height as u128);
    if (data.len() as u128) == expected {
        Ok(PixelBuffer { data, width, height })
    } else {
        Err(CaptureError::DeviceFailure("frame size mismatch".to_owned()))
    }
}

} // verus!
