//! The application's configuration: the instrument banks, the settings of
//! real-time playback and those of rendering to a file, each with the
//! values it starts from.
//!
//! Paths are kept as text. The render window is kept in whole
//! microseconds.

use vstd::prelude::*;
use vstd::string::StringExecFns;

verus! {

/// Number of input ports that a configuration has a slot for.
pub const INPUT_PORT_SLOTS: usize = 16;

#[derive(Debug, Clone, Copy, PartialEq, Eq, Structural)]
pub enum AudioChannels {
    Mono,
    Stereo,
}

#[derive(Debug, Clone, Copy, PartialEq, Eq, Structural)]
pub enum ThreadCount {
    /// No threads besides the caller's.
    Off,
    Auto,
    Manual(usize),
}

#[derive(Debug, Clone, Copy, PartialEq, Eq, Structural)]
pub enum Interpolator {
    /// No interpolation.
    Off,
    Nearest,
    Linear,
}

#[derive(Debug, Clone, Copy, PartialEq, Eq, Structural)]
pub enum EnvelopeCurveType {
    Linear,
    Exponential,
}

#[derive(Debug, Clone, Copy, PartialEq, Eq, Structural)]
pub enum SynthFormat {
    Midi,
    Custom { channels: u32 },
}

#[derive(Debug, Clone)]
pub struct EnvelopeOptions {
    pub attack_curve: EnvelopeCurveType,
    pub decay_curve: EnvelopeCurveType,
    pub release_curve: EnvelopeCurveType,
}

#[derive(Debug, Clone)]
pub struct SoundfontEntry {
    pub enabled: bool,
    pub path: String,
    pub bank: Option<u32>,
    pub preset: Option<u32>,
    pub vol_envelope_options: EnvelopeOptions,
    pub use_effects: bool,
    pub interpolator: Interpolator,
}

#[derive(Debug, Clone)]
pub struct RealtimeConfig {
    /// Length of the render window in microseconds.
    pub render_window_us: u32,
    pub format: SynthFormat,
    pub channel_threading: ThreadCount,
    pub key_threading: ThreadCount,
    pub ignore_range_start: u8,
    pub ignore_range_end: u8,
    pub ignore_range_exhausted: bool,
    pub input_ports: Vec<Option<String>>,
}

#[derive(Debug, Clone)]
pub struct RenderConfig {
    pub input_midi: Option<String>,
    pub output_path: String,
    pub sample_rate: u32,
    pub audio_channels: AudioChannels,
    pub layers: u32,
    pub channel_threading: ThreadCount,
    pub key_threading: ThreadCount,
    pub limiter: bool,
    pub disable_fade_out: bool,
    pub linear_envelope: bool,
    pub interpolation: Interpolator,
}

#[derive(Debug, Clone)]
pub struct AppConfig {
    pub soundfonts: Vec<SoundfontEntry>,
    pub realtime: RealtimeConfig,
    pub render: RenderConfig,
}

impl EnvelopeOptions {
    /// Whether these are the options a bank starts with: an exponential
    /// attack, a linear decay and a linear release.
    pub open spec fn is_default(self) -> bool {
        &&& self.attack_curve == EnvelopeCurveType::Exponential
        &&& self.decay_curve == EnvelopeCurveType::Linear
        &&& self.release_curve == EnvelopeCurveType::Linear
    }
}

impl Default for EnvelopeOptions {
    fn default() -> (options: EnvelopeOptions)
        ensures
            options.is_default(),
    {
        EnvelopeOptions {
            attack_curve: EnvelopeCurveType::Exponential,
            decay_curve: EnvelopeCurveType::Linear,
            release_curve: EnvelopeCurveType::Linear,
        }
    }
}

impl RealtimeConfig {
    /// Whether these are the settings that real-time playback starts with:
    /// a window of ten milliseconds, 256 channels, automatic threading, an
    /// ignore range that holds velocity zero alone, and sixteen input
    /// ports, none of them chosen.
    pub open spec fn is_default(self) -> bool {
        &&& self.render_window_us == 10_000
        &&& self.format == SynthFormat::Custom { channels: 256 }
        &&& self.channel_threading == ThreadCount::Auto
        &&& self.key_threading == ThreadCount::Auto
        &&& self.ignore_range_start == 0
        &&& self.ignore_range_end == 0
        &&& !self.ignore_range_exhausted
        &&& self.input_ports@.len() == 16
        &&& forall|i: int| 0 <= i < 16 ==> self.input_ports@[i] is None
    }
}

impl Default for RealtimeConfig {
    fn default() -> (config: RealtimeConfig)
        ensures
            config.is_default(),
    {
        let mut input_ports: Vec<Option<String>> = Vec::new();
        let mut i: usize = 0;
        while i < INPUT_PORT_SLOTS
            invariant
                i <= INPUT_PORT_SLOTS,
                input_ports@.len() == i,
                forall|j: int| 0 <= j < i ==> input_ports@[j] is None,
            decreases INPUT_PORT_SLOTS - i,
        {
            input_ports.push(None);
            i = i + 1;
        }
        RealtimeConfig {
            render_window_us: 10_000,
            format: SynthFormat::Custom { channels: 256 },
            channel_threading: ThreadCount::Auto,
            key_threading: ThreadCount::Auto,
            ignore_range_start: 0,
            ignore_range_end: 0,
            ignore_range_exhausted: false,
            input_ports,
        }
    }
}

impl RenderConfig {
    /// Whether these are the settings that rendering starts with: no input
    /// chosen, `output.wav`, 48 kHz stereo, 32 layers, automatic threading,
    /// the limiter on, fade-out kept, and linear interpolation.
    pub open spec fn is_default(self) -> bool {
        &&& self.input_midi is None
        &&& self.output_path@ == "output.wav"@
        &&& self.sample_rate == 48000
        &&& self.audio_channels == AudioChannels::Stereo
        &&& self.layers == 32
        &&& self.channel_threading == ThreadCount::Auto
        &&& self.key_threading == ThreadCount::Auto
        &&& self.limiter
        &&& !self.disable_fade_out
        &&& !self.linear_envelope
        &&& self.interpolation == Interpolator::Linear
    }
}

impl Default for RenderConfig {
    fn default() -> (config: RenderConfig)
        ensures
            config.is_default(),
    {
        RenderConfig {
            input_midi: None,
            output_path: String::from_str("output.wav"),
            sample_rate: 48000,
            audio_channels: AudioChannels::Stereo,
            layers: 32,
            channel_threading: ThreadCount::Auto,
            key_threading: ThreadCount::Auto,
            limiter: true,
            disable_fade_out: false,
            linear_envelope: false,
            interpolation: Interpolator::Linear,
        }
    }
}

impl AppConfig {
    /// Whether this is the configuration that the application starts with:
    /// no banks, and each part with the settings it starts with.
    pub open spec fn is_default(self) -> bool {
        &&& self.soundfonts@.len() == 0
        &&& self.realtime.is_default()
        &&& self.render.is_default()
    }
}

impl Default for AppConfig {
    fn default() -> (config: AppConfig)
        ensures
            config.is_default(),
    {
        AppConfig {
            soundfonts: Vec::new(),
            realtime: RealtimeConfig::default(),
            render: RenderConfig::default(),
        }
    }
}

} // verus!
