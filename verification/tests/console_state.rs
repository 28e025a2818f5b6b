use xxsynth::console::{Console, LogEntry, Message, Task, LOG_LIMIT};

fn entries(c: &Console) -> Vec<String> {
    c.logs
        .iter()
        .map(|e| match e {
            LogEntry::Ready => "ready".to_string(),
            LogEntry::FileSelected(p) => format!("file:{}", p),
            LogEntry::EngineStarted => "started".to_string(),
            LogEntry::EngineStopped => "stopped".to_string(),
            LogEntry::Text(t) => format!("text:{}", t),
        })
        .collect()
}

#[test]
fn the_console_opens_ready() {
    let (c, task) = Console::new();
    assert_eq!(task, Task::Idle);
    assert_eq!(c.soundfont_path, "");
    assert_eq!(c.layer_limit, "100");
    assert_eq!(c.gain_level, "1.0");
    assert!(!c.is_running);
    assert_eq!(c.voice_count, 0);
    assert_eq!(c.tick_counter, 0);
    assert_eq!(entries(&c), vec!["ready"]);
}

#[test]
fn picking_a_bank_asks_for_the_dialog() {
    let mut c = Console::default();
    assert_eq!(c.update(Message::PickSoundFont), Task::PickFile);
    assert_eq!(entries(&c), vec!["ready"]);
    assert_eq!(c.soundfont_path, "");
}

#[test]
fn a_chosen_bank_is_kept_and_logged() {
    let mut c = Console::default();
    assert_eq!(c.update(Message::SoundFontSelected(Some("piano.sf2".to_string()))), Task::Idle);
    assert_eq!(c.soundfont_path, "piano.sf2");
    assert_eq!(entries(&c), vec!["ready", "file:piano.sf2"]);
    assert_eq!(c.update(Message::SoundFontSelected(None)), Task::Idle);
    assert_eq!(c.soundfont_path, "piano.sf2");
    assert_eq!(entries(&c).len(), 2);
}

#[test]
fn parameters_are_kept_as_typed() {
    let mut c = Console::default();
    assert_eq!(c.update(Message::LayerLimitChanged("12x".to_string())), Task::Idle);
    assert_eq!(c.update(Message::GainChanged("".to_string())), Task::Idle);
    assert_eq!(c.layer_limit, "12x");
    assert_eq!(c.gain_level, "");
    assert_eq!(entries(&c), vec!["ready"]);
}

#[test]
fn toggling_starts_and_stops() {
    let mut c = Console::default();
    assert_eq!(c.update(Message::ToggleEngine), Task::Idle);
    assert!(c.is_running);
    c.update(Message::Tick);
    assert_eq!(c.voice_count, 101);
    c.update(Message::ToggleEngine);
    assert!(!c.is_running);
    assert_eq!(c.voice_count, 0);
    assert_eq!(c.tick_counter, 1);
    assert_eq!(entries(&c), vec!["ready", "started", "stopped"]);
}

#[test]
fn ticks_count_only_while_running() {
    let mut c = Console::default();
    c.update(Message::Tick);
    assert_eq!(c.tick_counter, 0);
    assert_eq!(c.voice_count, 0);
    c.update(Message::ToggleEngine);
    for tick in 1..=120u64 {
        c.update(Message::Tick);
        assert_eq!(c.tick_counter, tick);
        assert_eq!(c.voice_count, 100 + tick % 50);
        assert!(c.voice_count >= 100 && c.voice_count < 150);
    }
}

#[test]
fn the_tick_counter_wraps() {
    let mut c = Console::default();
    c.is_running = true;
    c.tick_counter = u64::MAX;
    c.update(Message::Tick);
    assert_eq!(c.tick_counter, 0);
    assert_eq!(c.voice_count, 100);
}

#[test]
fn the_log_drops_its_oldest_entry_when_full() {
    let mut c = Console::default();
    for i in 0..100 {
        c.update(Message::Log(format!("{}", i)));
    }
    assert_eq!(c.logs.len(), LOG_LIMIT + 1);
    assert_eq!(entries(&c)[0], "ready");
    c.update(Message::Log("next".to_string()));
    assert_eq!(c.logs.len(), 101);
    assert_eq!(entries(&c)[0], "text:0");
    assert_eq!(entries(&c)[100], "text:next");
    c.update(Message::Log("last".to_string()));
    assert_eq!(c.logs.len(), 101);
    assert_eq!(entries(&c)[0], "text:1");
    assert_eq!(entries(&c)[99], "text:next");
    assert_eq!(entries(&c)[100], "text:last");
}
