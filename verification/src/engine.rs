//! The engine configuration: what one run of the engine is started with.
//!
//! A configuration does not change while the run that was started with it
//! lasts; to change anything the engine is restarted. The order of the
//! instrument banks matters: where two banks hold the same preset, the one
//! listed first is heard.

use vstd::prelude::*;
use crate::config::Interpolator;
use crate::config::SynthFormat;
use crate::config::ThreadCount;

verus! {

/// How samples are interpolated.
#[derive(Clone, Copy, Debug, PartialEq, Eq, Structural)]
pub enum InterpolationMode {
    Nearest,
    Linear,
}

/// A closed interval of velocities that the synthesizer treats as
/// silence. The lower end never lies above the upper end.
#[derive(Clone, Copy, Debug)]
pub struct VelocityIgnoreRange {
    min: u8,
    max: u8,
}

impl View for VelocityIgnoreRange {
    type V = (u8, u8);

    closed spec fn view(&self) -> (u8, u8) {
        (self.min, self.max)
    }
}

/// The interval that `min` and `max` stand for: where `max` lies below
/// `min` it is raised to `min`.
pub open spec fn clamped_range(min: u8, max: u8) -> (u8, u8) {
    if max < min {
        (min, min)
    } else {
        (min, max)
    }
}

impl VelocityIgnoreRange {
    #[verifier::type_invariant]
    spec fn ordered(&self) -> bool {
        self.min <= self.max
    }

    /// Makes the interval from `min` to `max`, raising `max` to `min`
    /// where it lies below.
    pub fn new(min: u8, max: u8) -> (range: VelocityIgnoreRange)
        ensures
            range@ == clamped_range(min, max),
            range@.0 <= range@.1,
    {
        if max < min {
            VelocityIgnoreRange { min, max: min }
        } else {
            VelocityIgnoreRange { min, max }
        }
    }

    /// The lower end.
    pub fn min(&self) -> (min: u8)
        ensures
            min == self@.0,
            min <= self@.1,
    {
        proof {
            use_type_invariant(self);
        }
        self.min
    }

    /// The upper end.
    pub fn max(&self) -> (max: u8)
        ensures
            max == self@.1,
            self@.0 <= max,
    {
        proof {
            use_type_invariant(self);
        }
        self.max
    }

    /// Whether a velocity lies in the interval.
    pub fn contains(&self, velocity: u8) -> (inside: bool)
        ensures
            inside == (self@.0 <= velocity <= self@.1),
    {
        self.min <= velocity && velocity <= self.max
    }
}

/// What one run of the engine is started with.
#[derive(Clone, Debug)]
pub struct EngineConfig {
    /// Length of the render window in microseconds.
    pub render_window_us: u32,
    /// Number of worker threads; zero leaves the choice to the engine.
    pub thread_count: usize,
    pub interpolator: InterpolationMode,
    /// The UDP port to listen on, on the loopback interface.
    pub udp_port: u16,
    /// Number of channels of the flat channel space.
    pub total_channels: u32,
    pub ignore_range: VelocityIgnoreRange,
    /// The instrument banks, an earlier one taking priority over a later.
    pub instrument_paths: Vec<String>,
}

/// The threading that a thread count stands for: zero leaves the choice
/// to the engine, one asks for no threads besides the caller's, any other
/// number is taken as it is.
pub open spec fn threading_of(thread_count: usize) -> ThreadCount {
    if thread_count == 0 {
        ThreadCount::Auto
    } else if thread_count == 1 {
        ThreadCount::Off
    } else {
        ThreadCount::Manual(thread_count)
    }
}

/// The interpolator that an interpolation mode stands for.
pub open spec fn interpolator_of(mode: InterpolationMode) -> Interpolator {
    match mode {
        InterpolationMode::Nearest => Interpolator::Nearest,
        InterpolationMode::Linear => Interpolator::Linear,
    }
}

impl EngineConfig {
    /// The threading to open the engine with.
    pub fn get_thread_count(&self) -> (threading: ThreadCount)
        ensures
            threading == threading_of(self.thread_count),
    {
        if self.thread_count == 0 {
            ThreadCount::Auto
        } else if self.thread_count == 1 {
            ThreadCount::Off
        } else {
            ThreadCount::Manual(self.thread_count)
        }
    }

    /// The interpolator to load the banks with.
    pub fn get_interpolator(&self) -> (interpolator: Interpolator)
        ensures
            interpolator == interpolator_of(self.interpolator),
    {
        match self.interpolator {
            InterpolationMode::Nearest => Interpolator::Nearest,
            InterpolationMode::Linear => Interpolator::Linear,
        }
    }

    /// The channel format to open the engine with: as many channels as
    /// the flat channel space has.
    pub fn format(&self) -> (format: SynthFormat)
        ensures
            format == (SynthFormat::Custom { channels: self.total_channels }),
    {
        SynthFormat::Custom { channels: self.total_channels }
    }
}

} // verus!
