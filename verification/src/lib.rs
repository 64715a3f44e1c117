//! Core of a screen-region QR scanner: a pointer-gesture tracker that turns a
//! drag into a capture rectangle, validation for the capture worker, a decode
//! pipeline from raw pixels to a payload, and an orchestrator that ties them
//! together with one decode outcome per completed gesture.

pub mod capture;
pub mod decode;
pub mod geometry;
pub mod orchestrator;
pub mod session;
pub mod tracker;

pub use capture::CaptureError;
pub use capture::CaptureRequest;
pub use capture::ScreenBounds;
pub use decode::DecodeOutcome;
pub use decode::PixelBuffer;
pub use geometry::PointerEvent;
pub use geometry::SelectionRect;
pub use orchestrator::Orchestrator;
pub use session::Session;
pub use tracker::RegionTracker;
