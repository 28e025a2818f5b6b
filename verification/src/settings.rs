//! The persisted settings, and how they turn into an engine configuration
//! and back.

use vstd::prelude::*;
use crate::engine::EngineConfig;
use crate::engine::InterpolationMode;
use crate::engine::VelocityIgnoreRange;
use crate::engine::clamped_range;

verus! {

/// The port that the driver sends to, and the engine listens on unless
/// told otherwise.
pub const DEFAULT_UDP_PORT: u16 = 44444;

/// What is kept between two runs of the application.
#[derive(Clone, Debug)]
pub struct AppSettings {
    pub soundfonts: Vec<String>,
    pub udp_port: u16,
    pub total_channels: u32,
    /// Length of the render window in microseconds.
    pub render_window_us: u32,
    pub thread_count: usize,
    /// One for linear interpolation; anything else for nearest.
    pub interpolator: u8,
    pub ignore_velocity_min: u8,
    pub ignore_velocity_max: u8,
}

/// The number of threads that the settings start with: as many as the
/// machine runs in parallel where that is known, twelve where it is not.
pub open spec fn default_thread_count(parallelism: Option<usize>) -> usize {
    match parallelism {
        Some(n) => n,
        None => 12,
    }
}

/// The interpolation mode that a stored code stands for.
pub open spec fn mode_of_code(code: u8) -> InterpolationMode {
    if code == 1 {
        InterpolationMode::Linear
    } else {
        InterpolationMode::Nearest
    }
}

/// The code that an interpolation mode is stored as.
pub open spec fn code_of_mode(mode: InterpolationMode) -> u8 {
    match mode {
        InterpolationMode::Linear => 1,
        InterpolationMode::Nearest => 0,
    }
}

impl AppSettings {
    /// Whether these are the settings used where none are stored: no
    /// banks, port 44444, 64 channels, a window of fifteen milliseconds,
    /// nearest interpolation, and an ignore range of velocity zero alone.
    pub open spec fn is_default(self, parallelism: Option<usize>) -> bool {
        &&& self.soundfonts@.len() == 0
        &&& self.udp_port == 44444
        &&& self.total_channels == 64
        &&& self.render_window_us == 15_000
        &&& self.thread_count == default_thread_count(parallelism)
        &&& self.interpolator == 0
        &&& self.ignore_velocity_min == 0
        &&& self.ignore_velocity_max == 0
    }

    /// Whether `config` is the configuration that these settings stand for.
    pub open spec fn describes(self, config: EngineConfig) -> bool {
        &&& config.render_window_us == self.render_window_us
        &&& config.thread_count == self.thread_count
        &&& config.interpolator == mode_of_code(self.interpolator)
        &&& config.udp_port == self.udp_port
        &&& config.total_channels == self.total_channels
        &&& config.ignore_range@ == clamped_range(self.ignore_velocity_min, self.ignore_velocity_max)
        &&& config.instrument_paths@ == self.soundfonts@
    }

    /// Whether these are the settings that `config` is stored as.
    pub open spec fn stores(self, config: EngineConfig) -> bool {
        &&& self.render_window_us == config.render_window_us
        &&& self.thread_count == config.thread_count
        &&& self.interpolator == code_of_mode(config.interpolator)
        &&& self.udp_port == config.udp_port
        &&& self.total_channels == config.total_channels
        &&& self.ignore_velocity_min == config.ignore_range@.0
        &&& self.ignore_velocity_max == config.ignore_range@.1
        &&& self.soundfonts@ == config.instrument_paths@
    }

    /// The settings to go by: those that were stored, if any could be read,
    /// else the settings to start with. `parallelism` is the number of
    /// threads that the machine runs in parallel, if known.
    pub fn load(stored: Option<AppSettings>, parallelism: Option<usize>) -> (settings: AppSettings)
        ensures
            stored matches Some(s) ==> settings == s,
            stored is None ==> settings.is_default(parallelism),
    {
        match stored {
            Some(settings) => settings,
            None => AppSettings {
                soundfonts: Vec::new(),
                udp_port: DEFAULT_UDP_PORT,
                total_channels: 64,
                render_window_us: 15_000,
                thread_count: match parallelism {
                    Some(n) => n,
                    None => 12,
                },
                interpolator: 0,
                ignore_velocity_min: 0,
                ignore_velocity_max: 0,
            },
        }
    }

    /// The engine configuration that these settings stand for.
    pub fn to_config(&self) -> (config: EngineConfig)
        ensures
            self.describes(config),
    {
        EngineConfig {
            render_window_us: self.render_window_us,
            thread_count: self.thread_count,
            interpolator: if self.interpolator == 1 {
                InterpolationMode::Linear
            } else {
                InterpolationMode::Nearest
            },
            udp_port: self.udp_port,
            total_channels: self.total_channels,
            ignore_range: VelocityIgnoreRange::new(
                self.ignore_velocity_min,
                self.ignore_velocity_max,
            ),
            instrument_paths: copy_paths(&self.soundfonts),
        }
    }

    /// The settings that an engine configuration is stored as.
    pub fn from_config(config: &EngineConfig) -> (settings: AppSettings)
        ensures
            settings.stores(*config),
    {
        AppSettings {
            soundfonts: copy_paths(&config.instrument_paths),
            udp_port: config.udp_port,
            total_channels: config.total_channels,
            render_window_us: config.render_window_us,
            thread_count: config.thread_count,
            interpolator: match config.interpolator {
                InterpolationMode::Linear => 1,
                InterpolationMode::Nearest => 0,
            },
            ignore_velocity_min: config.ignore_range.min(),
            ignore_velocity_max: config.ignore_range.max(),
        }
    }
}

/// Copies a list of paths, keeping their order.
pub fn copy_paths(paths: &Vec<String>) -> (copy: Vec<String>)
    ensures
        copy@ == paths@,
{
    let mut copy: Vec<String> = Vec::new();
    let mut i: usize = 0;
    while i < paths.len()
        invariant
            i <= paths.len(),
            copy@ == paths@.subrange(0, i as int),
        decreases paths.len() - i,
    {
        copy.push(paths[i].clone());
        i = i + 1;
        assert(copy@ =~= paths@.subrange(0, i as int));
    }
    assert(paths@.subrange(0, paths.len() as int) =~= paths@);
    copy
}

/// Storing a configuration and reading it back gives the configuration:
/// nothing is lost between two runs, and the banks keep their order.
pub proof fn lemma_store_then_read(config: EngineConfig, settings: AppSettings, back: EngineConfig)
    requires
        config.ignore_range@.0 <= config.ignore_range@.1,
        settings.stores(config),
        settings.describes(back),
    ensures
        back.render_window_us == config.render_window_us,
        back.thread_count == config.thread_count,
        back.interpolator == config.interpolator,
        back.udp_port == config.udp_port,
        back.total_channels == config.total_channels,
        back.ignore_range@ == config.ignore_range@,
        back.instrument_paths@ == config.instrument_paths@,
{
}

/// Reading settings and storing what was read gives settings that read
/// the same: the interpolator code becomes zero or one and the ignore
/// range is put in order, and nothing else changes.
pub proof fn lemma_read_then_store(settings: AppSettings, config: EngineConfig, again: AppSettings)
    requires
        settings.describes(config),
        again.stores(config),
    ensures
        again.describes(config),
        again.soundfonts@ == settings.soundfonts@,
        again.udp_port == settings.udp_port,
        again.total_channels == settings.total_channels,
        again.render_window_us == settings.render_window_us,
        again.thread_count == settings.thread_count,
        again.interpolator == (if settings.interpolator == 1 { 1u8 } else { 0u8 }),
        again.ignore_velocity_min == settings.ignore_velocity_min,
        again.ignore_velocity_max == (if settings.ignore_velocity_max < settings.ignore_velocity_min {
            settings.ignore_velocity_min
        } else {
            settings.ignore_velocity_max
        }),
{
}

} // verus!
