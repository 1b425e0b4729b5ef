//! Live audio spectrum pipeline: rolling per-channel sample buffers, the
//! settings of the per-bin shaper, and the state machine that drives them.
//!
//! Samples and magnitudes are single-precision values. The library carries
//! each of them as its IEEE 754 bit pattern in a `u32` and never computes
//! with it; the arithmetic on them belongs to the caller.

use vstd::prelude::*;

pub mod coordinator;
pub mod sound_proxy;
pub mod sound_transformer;
pub mod spectrum_visualization;

verus! {

/// How the two channel traces are drawn.
#[derive(Clone, Copy, Debug, PartialEq, Eq, Structural)]
pub enum DisplayType {
    Lines,
    Boxes,
    Circle,
}

/// What the display shows: the raw samples or the shaped spectrum.
#[derive(Clone, Copy, Debug, PartialEq, Eq, Structural)]
pub enum ContentType {
    Raw,
    Processed,
}

/// One value for each of the two channels.
#[derive(Debug)]
pub struct Sides<T> {
    pub left: T,
    pub right: T,
}

impl<T: Clone> Clone for Sides<T> {
    fn clone(&self) -> (copy: Sides<T>)
        ensures
            cloned(self.left, copy.left),
            cloned(self.right, copy.right),
    {
        Sides { left: self.left.clone(), right: self.right.clone() }
    }
}

impl<T: Default> Default for Sides<T> {
    fn default() -> (sides: Sides<T>)
        ensures
            call_ensures(T::default, (), sides.left),
            call_ensures(T::default, (), sides.right),
    {
        Sides { left: T::default(), right: T::default() }
    }
}

/// What the input layer and the timer send to the coordinator.
#[derive(Clone, Copy, Debug, PartialEq, Eq, Structural)]
pub enum Message {
    Quit,
    ScanDevices,
    SelectDevice(usize),
    UnselectDevice,
    SwitchDisplayContent,
    ToggleNormalize,
    ToggleSmooth,
    ToggleFlashFlood,
    ShiftMovingAvgRange(i32),
    ToggleOffCenter,
    ScaleUp,
    ScaleDown,
    Tick,
}

} // verus!
