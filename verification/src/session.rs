//! One session of the application: the configuration being edited, the
//! lifecycle controller, and the status shown to the user.
//!
//! Changes to the configuration do not reach a running engine. They mark
//! the session as changed; applying them restarts the engine, and only a
//! restart that succeeds has the settings written out.

use vstd::prelude::*;
use crate::banks;
use crate::engine::EngineConfig;
use crate::engine::VelocityIgnoreRange;
use crate::engine::clamped_range;
use crate::lifecycle::Controller;
use crate::lifecycle::ControllerModel;
use crate::lifecycle::StartError;
use crate::lifecycle::StopAction;
use crate::lifecycle::WorkerReport;
use crate::lifecycle::accepts;
use crate::lifecycle::fresh;
use crate::lifecycle::reported;
use crate::lifecycle::restart_begun;
use crate::lifecycle::start_result;
use crate::lifecycle::started;
use crate::lifecycle::stop_action;
use crate::lifecycle::stopped;
use crate::settings::AppSettings;

verus! {

/// What asked for a start.
#[derive(Clone, Copy, Debug, PartialEq, Eq, Structural)]
pub enum StartKind {
    /// The application came up.
    Automatic,
    /// The user applied changed settings.
    Applied,
}

/// What the status line says.
#[derive(Clone, Copy, Debug, PartialEq, Eq, Structural)]
pub enum Status {
    /// The first start has yet to be tried.
    Starting,
    /// The engine was started and listens on `port`.
    Listening { kind: StartKind, port: u16 },
    /// The engine could not be started.
    StartFailed { kind: StartKind, error: StartError },
    /// The user stopped the engine.
    StoppedManually,
    /// The worker died.
    EngineCrashed,
}

/// What the caller does after a start that succeeded: spawn the worker of
/// run `run`, and write `settings` out.
#[derive(Clone, Debug)]
pub struct Launch {
    pub run: u64,
    pub settings: AppSettings,
}

/// One session of the application.
pub struct Session {
    /// The configuration as edited; the next start takes it.
    pub config: EngineConfig,
    pub controller: Controller,
    pub status: Status,
    /// Whether the configuration was changed since the last start.
    pub is_dirty: bool,
}

/// The highest velocity there is.
pub const MAX_VELOCITY: u8 = 127;

/// The fewest channels that can be chosen: those of one port.
pub const MIN_CHANNELS: u32 = 16;

/// The most channels that can be chosen: those of sixteen ports.
pub const MAX_CHANNELS: u32 = 256;

/// The shortest render window that can be chosen: one millisecond.
pub const MIN_RENDER_WINDOW_US: u32 = 1_000;

/// The longest render window that can be chosen: a hundred milliseconds.
pub const MAX_RENDER_WINDOW_US: u32 = 100_000;

/// The value brought into the range from `low` to `high`.
pub open spec fn within(value: u32, low: u32, high: u32) -> u32 {
    if value < low {
        low
    } else if value > high {
        high
    } else {
        value
    }
}

/// The ignore range that an edit to `min` and `max` gives.
pub open spec fn edited_range(min: u8, max: u8) -> (u8, u8) {
    clamped_range(
        if min > MAX_VELOCITY {
            MAX_VELOCITY
        } else {
            min
        },
        if max > MAX_VELOCITY {
            MAX_VELOCITY
        } else {
            max
        },
    )
}

/// Brings a value into the range from `low` to `high`.
fn clamp(value: u32, low: u32, high: u32) -> (clamped: u32)
    ensures
        clamped == within(value, low, high),
{
    if value < low {
        low
    } else if value > high {
        high
    } else {
        value
    }
}

/// The status after a start was tried.
pub open spec fn status_after(kind: StartKind, port: u16, result: Result<u64, StartError>) -> Status {
    match result {
        Ok(_) => Status::Listening { kind, port },
        Err(error) => Status::StartFailed { kind, error },
    }
}

impl Session {
    /// Opens a session with the configuration that `settings` stand for,
    /// and no engine.
    pub fn new(settings: &AppSettings) -> (session: Session)
        ensures
            settings.describes(session.config),
            session.controller@ == fresh(),
            session.status == Status::Starting,
            !session.is_dirty,
    {
        Session {
            config: settings.to_config(),
            controller: Controller::new(),
            status: Status::Starting,
            is_dirty: false,
        }
    }

    /// Adds a bank at the end of the list.
    pub fn add_bank(&mut self, path: String)
        ensures
            final(self).config.instrument_paths@ == old(self).config.instrument_paths@.push(path),
            final(self).is_dirty,
            final(self).same_but_banks(*old(self)),
    {
        let _ = banks::add_bank(&mut self.config.instrument_paths, path);
        self.is_dirty = true;
    }

    /// Empties the list of banks.
    pub fn clear_banks(&mut self)
        ensures
            final(self).config.instrument_paths@.len() == 0,
            final(self).is_dirty == (old(self).is_dirty || old(self).config.instrument_paths@.len()
                > 0),
            final(self).same_but_banks(*old(self)),
    {
        let changed = banks::clear_banks(&mut self.config.instrument_paths);
        self.is_dirty = self.is_dirty || changed;
    }

    /// Moves the bank at `index` one place up.
    pub fn move_bank_up(&mut self, index: usize)
        ensures
            final(self).config.instrument_paths@ == banks::moved_up(
                old(self).config.instrument_paths@,
                index as int,
            ),
            final(self).is_dirty == (old(self).is_dirty || 0 < index
                < old(self).config.instrument_paths@.len()),
            final(self).same_but_banks(*old(self)),
    {
        let changed = banks::move_bank_up(&mut self.config.instrument_paths, index);
        self.is_dirty = self.is_dirty || changed;
    }

    /// Moves the bank at `index` one place down.
    pub fn move_bank_down(&mut self, index: usize)
        ensures
            final(self).config.instrument_paths@ == banks::moved_down(
                old(self).config.instrument_paths@,
                index as int,
            ),
            final(self).is_dirty == (old(self).is_dirty || index + 1
                < old(self).config.instrument_paths@.len()),
            final(self).same_but_banks(*old(self)),
    {
        let changed = banks::move_bank_down(&mut self.config.instrument_paths, index);
        self.is_dirty = self.is_dirty || changed;
    }

    /// Takes the bank at `index` out of the list.
    pub fn remove_bank(&mut self, index: usize)
        ensures
            final(self).config.instrument_paths@ == banks::without(
                old(self).config.instrument_paths@,
                index as int,
            ),
            final(self).is_dirty == (old(self).is_dirty || index
                < old(self).config.instrument_paths@.len()),
            final(self).same_but_banks(*old(self)),
    {
        let changed = banks::remove_bank(&mut self.config.instrument_paths, index);
        self.is_dirty = self.is_dirty || changed;
    }

    /// Sets the velocity ignore range. Each end is brought down to the
    /// highest velocity there is, then `max` is raised to `min` where it
    /// lies below.
    pub fn set_ignore_range(&mut self, min: u8, max: u8)
        ensures
            final(self).config.ignore_range@ == edited_range(min, max),
            final(self).is_dirty == (old(self).is_dirty || old(self).config.ignore_range@
                != edited_range(min, max)),
            final(self).config.instrument_paths == old(self).config.instrument_paths,
            final(self).config.render_window_us == old(self).config.render_window_us,
            final(self).config.thread_count == old(self).config.thread_count,
            final(self).config.interpolator == old(self).config.interpolator,
            final(self).config.udp_port == old(self).config.udp_port,
            final(self).config.total_channels == old(self).config.total_channels,
            final(self).controller == old(self).controller,
            final(self).status == old(self).status,
    {
        let low = if min > MAX_VELOCITY {
            MAX_VELOCITY
        } else {
            min
        };
        let high = if max > MAX_VELOCITY {
            MAX_VELOCITY
        } else {
            max
        };
        let range = VelocityIgnoreRange::new(low, high);
        let changed = range.min() != self.config.ignore_range.min() || range.max()
            != self.config.ignore_range.max();
        self.config.ignore_range = range;
        self.is_dirty = self.is_dirty || changed;
    }

    /// Sets the number of channels, brought into the range that can be
    /// chosen.
    pub fn set_total_channels(&mut self, channels: u32)
        ensures
            final(self).config.total_channels == within(channels, MIN_CHANNELS, MAX_CHANNELS),
            final(self).is_dirty == (old(self).is_dirty || old(self).config.total_channels
                != within(channels, MIN_CHANNELS, MAX_CHANNELS)),
            final(self).config.instrument_paths == old(self).config.instrument_paths,
            final(self).config.render_window_us == old(self).config.render_window_us,
            final(self).config.thread_count == old(self).config.thread_count,
            final(self).config.interpolator == old(self).config.interpolator,
            final(self).config.udp_port == old(self).config.udp_port,
            final(self).config.ignore_range == old(self).config.ignore_range,
            final(self).controller == old(self).controller,
            final(self).status == old(self).status,
    {
        let channels = clamp(channels, MIN_CHANNELS, MAX_CHANNELS);
        let changed = channels != self.config.total_channels;
        self.config.total_channels = channels;
        self.is_dirty = self.is_dirty || changed;
    }

    /// Sets the length of the render window in microseconds, brought into
    /// the range that can be chosen.
    pub fn set_render_window(&mut self, microseconds: u32)
        ensures
            final(self).config.render_window_us == within(
                microseconds,
                MIN_RENDER_WINDOW_US,
                MAX_RENDER_WINDOW_US,
            ),
            final(self).is_dirty == (old(self).is_dirty || old(self).config.render_window_us
                != within(microseconds, MIN_RENDER_WINDOW_US, MAX_RENDER_WINDOW_US)),
            final(self).config.instrument_paths == old(self).config.instrument_paths,
            final(self).config.total_channels == old(self).config.total_channels,
            final(self).config.thread_count == old(self).config.thread_count,
            final(self).config.interpolator == old(self).config.interpolator,
            final(self).config.udp_port == old(self).config.udp_port,
            final(self).config.ignore_range == old(self).config.ignore_range,
            final(self).controller == old(self).controller,
            final(self).status == old(self).status,
    {
        let window = clamp(microseconds, MIN_RENDER_WINDOW_US, MAX_RENDER_WINDOW_US);
        let changed = window != self.config.render_window_us;
        self.config.render_window_us = window;
        self.is_dirty = self.is_dirty || changed;
    }

    /// Whether an engine is there: one that loads, runs, or has crashed
    /// and was not stopped since.
    pub fn is_running(&self) -> (running: bool)
        ensures
            running == self.controller@.active(),
    {
        self.controller.is_active()
    }

    /// Whether `other` differs from this session in the list of banks and
    /// the changed mark at most.
    pub open spec fn same_but_banks(self, other: Session) -> bool {
        &&& self.config.render_window_us == other.config.render_window_us
        &&& self.config.thread_count == other.config.thread_count
        &&& self.config.interpolator == other.config.interpolator
        &&& self.config.udp_port == other.config.udp_port
        &&& self.config.total_channels == other.config.total_channels
        &&& self.config.ignore_range == other.config.ignore_range
        &&& self.controller == other.controller
        &&& self.status == other.status
    }

    /// Begins a restart. The caller does what the answer says, then tries
    /// to bind the listen port of the configuration, then calls
    /// `complete_restart`.
    pub fn begin_restart(&mut self) -> (action: StopAction)
        ensures
            action == stop_action(old(self).controller@),
            final(self).controller@ == restart_begun(old(self).controller@),
            final(self).config == old(self).config,
            final(self).status == old(self).status,
            final(self).is_dirty == old(self).is_dirty,
    {
        self.controller.begin_restart()
    }

    /// Completes a restart. `bound` tells whether the listen port of the
    /// configuration could be bound. On success the session is no longer
    /// marked as changed, and the answer holds the run to spawn and the
    /// settings to write out; on failure nothing is to be spawned or
    /// written. Either way the status says what happened.
    pub fn complete_restart(&mut self, kind: StartKind, bound: bool) -> (launch: Option<Launch>)
        ensures
            final(self).controller@ == started(old(self).controller@, bound),
            final(self).config == old(self).config,
            final(self).status == status_after(
                kind,
                old(self).config.udp_port,
                start_result(old(self).controller@, old(self).config.udp_port, bound),
            ),
            match start_result(old(self).controller@, old(self).config.udp_port, bound) {
                Ok(run) => launch matches Some(l) && l.run == run && l.settings.stores(
                    old(self).config,
                ) && !final(self).is_dirty,
                Err(_) => launch is None && final(self).is_dirty == old(self).is_dirty,
            },
    {
        let port = self.config.udp_port;
        match self.controller.start(port, bound) {
            Ok(run) => {
                self.status = Status::Listening { kind, port };
                self.is_dirty = false;
                Some(Launch { run, settings: AppSettings::from_config(&self.config) })
            },
            Err(error) => {
                self.status = Status::StartFailed { kind, error };
                None
            },
        }
    }

    /// Stops the engine at the user's request.
    pub fn stop(&mut self) -> (action: StopAction)
        ensures
            action == stop_action(old(self).controller@),
            final(self).controller@ == stopped(old(self).controller@),
            final(self).status == Status::StoppedManually,
            final(self).config == old(self).config,
            final(self).is_dirty == old(self).is_dirty,
    {
        let action = self.controller.stop();
        self.status = Status::StoppedManually;
        action
    }

    /// Takes a report of the worker of run `run`. A crash shows in the
    /// status; every other report leaves the status as it is.
    pub fn on_report(&mut self, run: u64, report: WorkerReport) -> (taken: bool)
        ensures
            taken == accepts(old(self).controller@, run, report),
            final(self).controller@ == reported(old(self).controller@, run, report),
            final(self).status == (if taken && report is Crashed {
                Status::EngineCrashed
            } else {
                old(self).status
            }),
            final(self).config == old(self).config,
            final(self).is_dirty == old(self).is_dirty,
    {
        let taken = self.controller.on_report(run, report);
        if taken {
            match report {
                WorkerReport::Crashed => {
                    self.status = Status::EngineCrashed;
                },
                _ => {},
            }
        }
        taken
    }
}

/// A restart that succeeds leaves the engine loading the configuration as
/// it was edited, with progress at zero; one that fails leaves the engine
/// stopped and the session marked as it was. Neither touches the
/// configuration.
pub proof fn lemma_restart_outcome(c: ControllerModel, port: u16, bound: bool)
    ensures
        start_result(restart_begun(c), port, bound) is Ok <==> bound,
        bound ==> started(restart_begun(c), bound).state is Loading && started(
            restart_begun(c),
            bound,
        ).progress.is_zero(),
        !bound ==> started(restart_begun(c), bound).state is Stopped && start_result(
            restart_begun(c),
            port,
            bound,
        ) == Err::<u64, StartError>(StartError::PortUnavailable { port }),
{
}

} // verus!
