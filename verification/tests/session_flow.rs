use xxsynth::lifecycle::{EngineState, StartError, StopAction, WorkerReport};
use xxsynth::progress::LoadProgress;
use xxsynth::session::{Session, StartKind, Status};
use xxsynth::settings::AppSettings;

fn settings() -> AppSettings {
    let mut s = AppSettings::load(None, Some(4));
    s.soundfonts = vec!["a.sf2".to_string(), "b.sf2".to_string()];
    s.udp_port = 6000;
    s
}

#[test]
fn a_session_opens_clean_and_stopped() {
    let s = Session::new(&settings());
    assert_eq!(s.status, Status::Starting);
    assert!(!s.is_dirty);
    assert_eq!(s.controller.state(), EngineState::Stopped);
    assert_eq!(s.config.udp_port, 6000);
    assert_eq!(s.config.instrument_paths.len(), 2);
}

#[test]
fn the_first_start_reports_the_port() {
    let mut s = Session::new(&settings());
    assert_eq!(s.begin_restart(), StopAction::Nothing);
    let launch = s.complete_restart(StartKind::Automatic, true).unwrap();
    assert_eq!(launch.run, 1);
    assert_eq!(launch.settings.udp_port, 6000);
    assert_eq!(launch.settings.soundfonts, vec!["a.sf2".to_string(), "b.sf2".to_string()]);
    assert_eq!(s.status, Status::Listening { kind: StartKind::Automatic, port: 6000 });
    assert_eq!(s.controller.state(), EngineState::Loading);
}

#[test]
fn a_start_that_cannot_bind_says_so() {
    let mut s = Session::new(&settings());
    s.add_bank("c.sf2".to_string());
    s.begin_restart();
    assert!(s.complete_restart(StartKind::Applied, false).is_none());
    assert_eq!(
        s.status,
        Status::StartFailed {
            kind: StartKind::Applied,
            error: StartError::PortUnavailable { port: 6000 }
        }
    );
    assert!(s.is_dirty);
    assert_eq!(s.controller.state(), EngineState::Stopped);
}

#[test]
fn applying_changes_restarts_and_clears_the_mark() {
    let mut s = Session::new(&settings());
    s.begin_restart();
    let first = s.complete_restart(StartKind::Automatic, true).unwrap();
    assert!(s.on_report(first.run, WorkerReport::Ready));
    s.add_bank("c.sf2".to_string());
    assert!(s.is_dirty);
    assert_eq!(s.begin_restart(), StopAction::SignalAndJoin);
    assert_eq!(s.controller.progress(), LoadProgress::zero());
    let second = s.complete_restart(StartKind::Applied, true).unwrap();
    assert_eq!(second.run, 2);
    assert_eq!(second.settings.soundfonts.len(), 3);
    assert!(!s.is_dirty);
    assert_eq!(s.status, Status::Listening { kind: StartKind::Applied, port: 6000 });
    assert!(!s.on_report(first.run, WorkerReport::Ready));
    assert_eq!(s.controller.state(), EngineState::Loading);
}

#[test]
fn completing_without_a_stop_is_refused() {
    let mut s = Session::new(&settings());
    s.begin_restart();
    s.complete_restart(StartKind::Automatic, true).unwrap();
    assert!(s.complete_restart(StartKind::Applied, true).is_none());
    assert_eq!(
        s.status,
        Status::StartFailed { kind: StartKind::Applied, error: StartError::AlreadyActive }
    );
}

#[test]
fn stopping_by_hand_shows_in_the_status() {
    let mut s = Session::new(&settings());
    s.begin_restart();
    s.complete_restart(StartKind::Automatic, true).unwrap();
    assert_eq!(s.stop(), StopAction::SignalAndJoin);
    assert_eq!(s.status, Status::StoppedManually);
    assert_eq!(s.stop(), StopAction::Nothing);
    assert_eq!(s.status, Status::StoppedManually);
}

#[test]
fn a_crash_shows_in_the_status() {
    let mut s = Session::new(&settings());
    s.begin_restart();
    let launch = s.complete_restart(StartKind::Automatic, true).unwrap();
    assert!(!s.on_report(launch.run + 1, WorkerReport::Crashed));
    assert_eq!(s.status, Status::Listening { kind: StartKind::Automatic, port: 6000 });
    assert!(s.on_report(launch.run, WorkerReport::Crashed));
    assert_eq!(s.status, Status::EngineCrashed);
    assert_eq!(s.controller.state(), EngineState::Crashed);
}

#[test]
fn edits_mark_the_session_only_when_they_change_something() {
    let mut s = Session::new(&settings());
    s.move_bank_up(0);
    assert!(!s.is_dirty);
    s.move_bank_down(1);
    assert!(!s.is_dirty);
    s.remove_bank(2);
    assert!(!s.is_dirty);
    s.set_ignore_range(0, 0);
    assert!(!s.is_dirty);
    s.move_bank_up(1);
    assert!(s.is_dirty);
    assert_eq!(s.config.instrument_paths, vec!["b.sf2".to_string(), "a.sf2".to_string()]);
}

#[test]
fn every_edit_of_the_list_marks_the_session() {
    let mut s = Session::new(&settings());
    s.move_bank_down(0);
    assert!(s.is_dirty);
    assert_eq!(s.config.instrument_paths, vec!["b.sf2".to_string(), "a.sf2".to_string()]);
    let mut s = Session::new(&settings());
    s.remove_bank(0);
    assert!(s.is_dirty);
    assert_eq!(s.config.instrument_paths, vec!["b.sf2".to_string()]);
    let mut s = Session::new(&settings());
    s.clear_banks();
    assert!(s.is_dirty);
    assert!(s.config.instrument_paths.is_empty());
    s.is_dirty = false;
    s.clear_banks();
    assert!(!s.is_dirty);
}

#[test]
fn the_ignore_range_is_kept_in_order() {
    let mut s = Session::new(&settings());
    s.set_ignore_range(40, 10);
    assert!(s.is_dirty);
    assert_eq!((s.config.ignore_range.min(), s.config.ignore_range.max()), (40, 40));
    s.is_dirty = false;
    s.set_ignore_range(40, 40);
    assert!(!s.is_dirty);
    s.set_ignore_range(40, 41);
    assert!(s.is_dirty);
}

#[test]
fn velocities_above_the_highest_are_brought_down() {
    let mut s = Session::new(&settings());
    s.set_ignore_range(200, 255);
    assert_eq!((s.config.ignore_range.min(), s.config.ignore_range.max()), (127, 127));
    s.set_ignore_range(5, 128);
    assert_eq!((s.config.ignore_range.min(), s.config.ignore_range.max()), (5, 127));
    s.set_ignore_range(127, 126);
    assert_eq!((s.config.ignore_range.min(), s.config.ignore_range.max()), (127, 127));
}

#[test]
fn the_channel_count_stays_between_one_and_sixteen_ports() {
    let mut s = Session::new(&settings());
    assert_eq!(s.config.total_channels, 64);
    s.set_total_channels(64);
    assert!(!s.is_dirty);
    s.set_total_channels(0);
    assert_eq!(s.config.total_channels, 16);
    assert!(s.is_dirty);
    s.set_total_channels(15);
    assert_eq!(s.config.total_channels, 16);
    s.set_total_channels(16);
    assert_eq!(s.config.total_channels, 16);
    s.set_total_channels(200);
    assert_eq!(s.config.total_channels, 200);
    s.set_total_channels(256);
    assert_eq!(s.config.total_channels, 256);
    s.set_total_channels(257);
    assert_eq!(s.config.total_channels, 256);
    s.set_total_channels(u32::MAX);
    assert_eq!(s.config.total_channels, 256);
}

#[test]
fn the_render_window_stays_between_one_and_a_hundred_milliseconds() {
    let mut s = Session::new(&settings());
    assert_eq!(s.config.render_window_us, 15_000);
    s.set_render_window(15_000);
    assert!(!s.is_dirty);
    s.set_render_window(999);
    assert_eq!(s.config.render_window_us, 1_000);
    assert!(s.is_dirty);
    s.set_render_window(42_500);
    assert_eq!(s.config.render_window_us, 42_500);
    s.set_render_window(100_001);
    assert_eq!(s.config.render_window_us, 100_000);
    s.set_render_window(0);
    assert_eq!(s.config.render_window_us, 1_000);
}

#[test]
fn an_engine_is_there_from_start_to_stop() {
    let mut s = Session::new(&settings());
    assert!(!s.is_running());
    s.begin_restart();
    let launch = s.complete_restart(StartKind::Automatic, true).unwrap();
    assert!(s.is_running());
    s.on_report(launch.run, WorkerReport::Ready);
    assert!(s.is_running());
    s.stop();
    assert!(!s.is_running());
    s.begin_restart();
    assert!(s.complete_restart(StartKind::Applied, false).is_none());
    assert!(!s.is_running());
}
