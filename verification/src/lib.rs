//! Driver core for HUB75-class RGB LED matrix panels.
//!
//! HUB75 panels have no on-panel frame buffer or gray-scale hardware: the
//! host scans the panel continuously, shifting one bit of color per pixel
//! per row while the panel multiplexes between two row halves. Gray scale
//! is synthesized in software through Binary Code Modulation (BCM).
//!
//! This crate holds the verified core: the pixel/color model, the frame
//! buffer with its bit-plane extractor, the BCM scheduler that plans the
//! panel wire protocol as a sequence of pin commands, and the animation
//! controller. Driving the GPIO lines themselves, and sleeping between
//! bit planes, is left to a thin unverified shell that executes the
//! command sequences this crate emits.

use vstd::prelude::*;

pub mod animation;
pub mod color;
pub mod display;
pub mod frame_buffer;
pub mod pins;

pub use animation::{Animation, AnimationData, AnimationEffect, AnimationEffectTrait, AnimationState};
pub use color::{ColorConvert, Hub75Color};
pub use display::{Brightness, Hub75Display};
pub use frame_buffer::Hub75FrameBuffer;
pub use pins::{PinCommand, PinLine};

verus! {

/// Errors that can occur when using the HUB75 driver.
#[derive(Debug, Clone, Copy, PartialEq, Eq, Structural)]
pub enum Hub75Error {
    /// Pin operation failed
    PinError,
    /// Invalid coordinates provided
    InvalidCoordinates,
    /// Invalid color value
    InvalidColor,
    /// Animation error
    AnimationError(AnimationError),
    /// Buffer overflow
    BufferOverflow,
}

/// Animation-specific errors.
#[derive(Debug, Clone, Copy, PartialEq, Eq, Structural)]
pub enum AnimationError {
    /// Animation is too fast for the refresh rate
    TooFast,
    /// Invalid animation data
    InvalidData,
    /// Animation duration is invalid
    InvalidDuration,
}

impl From<AnimationError> for Hub75Error {
    fn from(err: AnimationError) -> Self {
        Hub75Error::AnimationError(err)
    }
}

impl vstd::std_specs::convert::FromSpecImpl<AnimationError> for Hub75Error {
    open spec fn obeys_from_spec() -> bool {
        true
    }

    open spec fn from_spec(err: AnimationError) -> Self {
        Hub75Error::AnimationError(err)
    }
}

} // verus!
