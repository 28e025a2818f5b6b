//! The state behind the configuration console: the chosen bank, the two
//! engine parameters as they were typed, whether the engine is shown as
//! running, and the log.
//!
//! The console is driven by messages. Each message changes the state and
//! may ask for one thing to be done outside: to let the user pick a file.

use vstd::prelude::*;

verus! {

/// Number of log entries above which the oldest entry makes room for a
/// logged text.
pub const LOG_LIMIT: usize = 100;

/// Voices shown while the engine runs: this many, and up to
/// `VOICE_SPREAD - 1` more.
pub const VOICE_BASE: u64 = 100;

pub const VOICE_SPREAD: u64 = 50;

/// One line of the log.
#[derive(Clone, Debug)]
pub enum LogEntry {
    /// The console is ready.
    Ready,
    /// The user chose this file.
    FileSelected(String),
    EngineStarted,
    EngineStopped,
    /// A text that was logged as it is.
    Text(String),
}

/// What happened in the console.
#[derive(Clone, Debug)]
pub enum Message {
    PickSoundFont,
    SoundFontSelected(Option<String>),
    LayerLimitChanged(String),
    GainChanged(String),
    ToggleEngine,
    Tick,
    Log(String),
}

/// What is to be done outside the console after a message.
#[derive(Clone, Copy, Debug, PartialEq, Eq, Structural)]
pub enum Task {
    /// Nothing.
    Idle,
    /// Let the user pick a file, and send `SoundFontSelected` with the
    /// outcome.
    PickFile,
}

/// The state of the console.
#[derive(Clone, Debug)]
pub struct Console {
    pub soundfont_path: String,
    pub layer_limit: String,
    pub gain_level: String,
    pub is_running: bool,
    pub voice_count: u64,
    pub logs: Vec<LogEntry>,
    pub tick_counter: u64,
}

/// The mathematical state of the console.
pub struct ConsoleModel {
    pub soundfont_path: String,
    pub layer_limit: String,
    pub gain_level: String,
    pub is_running: bool,
    pub voice_count: u64,
    pub logs: Seq<LogEntry>,
    pub tick_counter: u64,
}

impl View for Console {
    type V = ConsoleModel;

    open spec fn view(&self) -> ConsoleModel {
        ConsoleModel {
            soundfont_path: self.soundfont_path,
            layer_limit: self.layer_limit,
            gain_level: self.gain_level,
            is_running: self.is_running,
            voice_count: self.voice_count,
            logs: self.logs@,
            tick_counter: self.tick_counter,
        }
    }
}

/// The tick counter after one more tick: it starts again at zero after
/// its largest value.
pub open spec fn next_tick(counter: u64) -> u64 {
    if counter == u64::MAX {
        0
    } else {
        (counter + 1) as u64
    }
}

/// The log after a text was logged: with more than `LOG_LIMIT` entries the
/// oldest goes first.
pub open spec fn logged(logs: Seq<LogEntry>, text: String) -> Seq<LogEntry> {
    if logs.len() > LOG_LIMIT {
        logs.remove(0).push(LogEntry::Text(text))
    } else {
        logs.push(LogEntry::Text(text))
    }
}

/// The state after a message.
pub open spec fn updated(c: ConsoleModel, message: Message) -> ConsoleModel {
    match message {
        Message::PickSoundFont => c,
        Message::SoundFontSelected(Some(path)) => ConsoleModel {
            soundfont_path: path,
            logs: c.logs.push(LogEntry::FileSelected(path)),
            ..c
        },
        Message::SoundFontSelected(None) => c,
        Message::LayerLimitChanged(text) => ConsoleModel { layer_limit: text, ..c },
        Message::GainChanged(text) => ConsoleModel { gain_level: text, ..c },
        Message::ToggleEngine => if c.is_running {
            ConsoleModel {
                is_running: false,
                voice_count: 0,
                logs: c.logs.push(LogEntry::EngineStopped),
                ..c
            }
        } else {
            ConsoleModel { is_running: true, logs: c.logs.push(LogEntry::EngineStarted), ..c }
        },
        Message::Tick => if c.is_running {
            ConsoleModel {
                tick_counter: next_tick(c.tick_counter),
                voice_count: (100 + next_tick(c.tick_counter) % 50) as u64,
                ..c
            }
        } else {
            c
        },
        Message::Log(text) => ConsoleModel { logs: logged(c.logs, text), ..c },
    }
}

/// What a message asks to be done outside.
pub open spec fn task_of(message: Message) -> Task {
    match message {
        Message::PickSoundFont => Task::PickFile,
        _ => Task::Idle,
    }
}

impl ConsoleModel {
    /// Whether this is the state that the console opens in: no bank
    /// chosen, a layer limit of `100`, a gain of `1.0`, the engine not
    /// running, and a log that says the console is ready.
    pub open spec fn is_default(self) -> bool {
        &&& self.soundfont_path@.len() == 0
        &&& self.layer_limit@ == "100"@
        &&& self.gain_level@ == "1.0"@
        &&& !self.is_running
        &&& self.voice_count == 0
        &&& self.logs.len() == 1
        &&& self.logs[0] is Ready
        &&& self.tick_counter == 0
    }
}

impl Default for Console {
    fn default() -> (console: Console)
        ensures
            console@.is_default(),
    {
        let mut logs: Vec<LogEntry> = Vec::new();
        logs.push(LogEntry::Ready);
        Console {
            soundfont_path: String::new(),
            layer_limit: "100".to_owned(),
            gain_level: "1.0".to_owned(),
            is_running: false,
            voice_count: 0,
            logs,
            tick_counter: 0,
        }
    }
}

impl Console {
    /// The console as it opens, and nothing to do outside.
    pub fn new() -> (start: (Console, Task))
        ensures
            start.0@.is_default(),
            start.1 == Task::Idle,
    {
        (Console::default(), Task::Idle)
    }

    /// Takes a message: changes the state, and says what is to be done
    /// outside.
    pub fn update(&mut self, message: Message) -> (task: Task)
        ensures
            final(self)@ == updated(old(self)@, message),
            task == task_of(message),
    {
        match message {
            Message::PickSoundFont => Task::PickFile,
            Message::SoundFontSelected(path) => {
                if let Some(p) = path {
                    self.logs.push(LogEntry::FileSelected(p.clone()));
                    self.soundfont_path = p;
                }
                Task::Idle
            },
            Message::LayerLimitChanged(text) => {
                self.layer_limit = text;
                Task::Idle
            },
            Message::GainChanged(text) => {
                self.gain_level = text;
                Task::Idle
            },
            Message::ToggleEngine => {
                self.is_running = !self.is_running;
                if self.is_running {
                    self.logs.push(LogEntry::EngineStarted);
                } else {
                    self.logs.push(LogEntry::EngineStopped);
                    self.voice_count = 0;
                }
                Task::Idle
            },
            Message::Tick => {
                if self.is_running {
                    self.tick_counter = self.tick_counter.wrapping_add(1);
                    self.voice_count = VOICE_BASE + self.tick_counter % VOICE_SPREAD;
                }
                Task::Idle
            },
            Message::Log(text) => {
                if self.logs.len() > LOG_LIMIT {
                    let _ = self.logs.remove(0);
                }
                self.logs.push(LogEntry::Text(text));
                Task::Idle
            },
        }
    }
}

/// While the engine runs, the voice count shown after a tick lies between
/// 100 and 149; when the engine is switched off it is zero.
pub proof fn lemma_voice_count(c: ConsoleModel)
    ensures
        c.is_running ==> 100 <= updated(c, Message::Tick).voice_count < 150,
        c.is_running ==> updated(c, Message::ToggleEngine).voice_count == 0 && !updated(
            c,
            Message::ToggleEngine,
        ).is_running,
        !c.is_running ==> updated(c, Message::Tick) == c,
{
}

/// Logging texts never lets the log grow beyond `LOG_LIMIT + 1` entries
/// once it is within that bound, and the text logged is always the newest
/// entry.
pub proof fn lemma_log_bounded(logs: Seq<LogEntry>, text: String)
    ensures
        logs.len() <= LOG_LIMIT + 1 ==> logged(logs, text).len() <= LOG_LIMIT + 1,
        logged(logs, text).last() == LogEntry::Text(text),
        logs.len() <= LOG_LIMIT ==> logged(logs, text).drop_last() == logs,
        logs.len() > LOG_LIMIT ==> logged(logs, text).drop_last() == logs.remove(0),
{
    if logs.len() <= LOG_LIMIT {
        assert(logged(logs, text).drop_last() =~= logs);
    } else {
        assert(logged(logs, text).drop_last() =~= logs.remove(0));
    }
}

} // verus!
