//! Stream attributes accepted by the configuration builder and passed through
//! to the native layer.

use vstd::prelude::*;

verus! {

/// The kind of data stream a configuration may enable.
#[derive(Clone, Copy, PartialEq, Eq, Structural, Debug)]
pub enum StreamKind {
    Any,
    Depth,
    Color,
    Infrared,
    Fisheye,
    Gyro,
    Accel,
    Pose,
}

/// The pixel or sample format a stream is asked to produce.
#[derive(Clone, Copy, PartialEq, Eq, Structural, Debug)]
pub enum Format {
    Any,
    Z16,
    Rgb8,
    Bgr8,
    Rgba8,
    Bgra8,
    Y8,
    Y16,
    Yuyv,
}

} // verus!
