use vstd::prelude::*;

verus! {

/// Immutable description of the capture a session requests: resolution,
/// framerate as a rational number, and the pixel format. The format string
/// is free-form here; only the engine judges it during negotiation.
#[derive(Clone, Debug)]
pub struct CameraCaps {
    pub width: i32,
    pub height: i32,
    pub framerate_numerator: i32,
    pub framerate_denominator: i32,
    pub format: String,
}

impl CameraCaps {
    /// Valid parameters: a positive resolution and a positive rational
    /// framerate. The format string carries no constraint at this layer.
    pub open spec fn valid(self) -> bool {
        self.width > 0
            && self.height > 0
            && self.framerate_numerator > 0
            && self.framerate_denominator > 0
    }

    pub fn new(
        width: i32,
        height: i32,
        framerate_numerator: i32,
        framerate_denominator: i32,
        format: String,
    ) -> (c: CameraCaps)
        ensures
            c.width == width,
            c.height == height,
            c.framerate_numerator == framerate_numerator,
            c.framerate_denominator == framerate_denominator,
            c.format == format,
    {
        CameraCaps { width, height, framerate_numerator, framerate_denominator, format }
    }

    pub fn is_valid(&self) -> (b: bool)
        ensures
            b == self.valid(),
    {
        self.width > 0
            && self.height > 0
            && self.framerate_numerator > 0
            && self.framerate_denominator > 0
    }
}

} // verus!
