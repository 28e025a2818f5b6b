use xxsynth::progress::LoadProgress;
use xxsynth::startup::{Startup, StartupAction, StartupPhase};

fn at_most(a: LoadProgress, b: LoadProgress) -> bool {
    a.numerator * b.denominator <= b.numerator * a.denominator
}

#[test]
fn a_failed_bank_is_skipped_and_the_engine_still_comes_up() {
    let mut s = Startup::begin(2);
    assert_eq!(s.progress(), LoadProgress::zero());
    assert_eq!(s.next_action(), StartupAction::ApplyBaseSetup);
    s = s.complete_step(true);
    assert_eq!(s.progress(), LoadProgress { numerator: 2, denominator: 40 });
    assert_eq!(s.next_action(), StartupAction::LoadBank(0));
    s = s.complete_step(false);
    assert_eq!(s.progress(), LoadProgress { numerator: 20, denominator: 40 });
    assert_eq!(s.next_action(), StartupAction::LoadBank(1));
    s = s.complete_step(true);
    assert_eq!(s.phase(), StartupPhase::Assigning);
    assert_eq!(s.progress(), LoadProgress { numerator: 19, denominator: 20 });
    assert_eq!(s.loaded_banks(), &vec![1usize]);
    assert_eq!(s.next_action(), StartupAction::AssignInstruments);
    s = s.complete_step(true);
    assert_eq!(s.phase(), StartupPhase::Ready);
    assert_eq!(s.progress(), LoadProgress::complete());
    assert_eq!(s.loaded_banks(), &vec![1usize]);
    assert_eq!(s.next_action(), StartupAction::EnterReceiveLoop);
}

#[test]
fn without_banks_the_engine_runs_silently() {
    let mut s = Startup::begin(0);
    assert_eq!(s.next_action(), StartupAction::ApplyBaseSetup);
    s = s.complete_step(true);
    assert_eq!(s.phase(), StartupPhase::Assigning);
    assert_eq!(s.progress(), LoadProgress { numerator: 19, denominator: 20 });
    assert_eq!(s.next_action(), StartupAction::WarnNoInstruments);
    s = s.complete_step(true);
    assert_eq!(s.next_action(), StartupAction::EnterReceiveLoop);
    assert_eq!(s.progress(), LoadProgress::complete());
    assert!(s.loaded_banks().is_empty());
}

#[test]
fn when_every_bank_fails_the_engine_runs_silently() {
    let mut s = Startup::begin(3).complete_step(true);
    for i in 0..3 {
        assert_eq!(s.next_action(), StartupAction::LoadBank(i));
        s = s.complete_step(false);
    }
    assert_eq!(s.next_action(), StartupAction::WarnNoInstruments);
    s = s.complete_step(false);
    assert_eq!(s.phase(), StartupPhase::Ready);
}

#[test]
fn loaded_banks_keep_the_order_of_the_list() {
    let outcomes = [true, false, true, true, false, true];
    let mut s = Startup::begin(outcomes.len()).complete_step(true);
    for ok in outcomes {
        s = s.complete_step(ok);
    }
    assert_eq!(s.loaded_banks(), &vec![0usize, 2, 3, 5]);
    assert_eq!(s.next_action(), StartupAction::AssignInstruments);
}

#[test]
fn a_failed_setup_ends_the_attempt() {
    let mut s = Startup::begin(2).complete_step(false);
    assert_eq!(s.phase(), StartupPhase::Failed);
    assert_eq!(s.next_action(), StartupAction::Abandon);
    assert_eq!(s.progress(), LoadProgress::complete());
    s = s.complete_step(true);
    assert_eq!(s.phase(), StartupPhase::Failed);
    assert!(s.loaded_banks().is_empty());
}

#[test]
fn a_ready_engine_stays_ready() {
    let mut s = Startup::begin(1).complete_step(true).complete_step(true).complete_step(true);
    assert_eq!(s.phase(), StartupPhase::Ready);
    s = s.complete_step(false);
    assert_eq!(s.phase(), StartupPhase::Ready);
    assert_eq!(s.loaded_banks(), &vec![0usize]);
}

#[test]
fn progress_never_decreases_during_a_start() {
    for total in 0..6usize {
        let mut s = Startup::begin(total);
        let mut last = s.progress();
        for step in 0..total + 4 {
            s = s.complete_step(step % 2 == 0);
            let now = s.progress();
            assert!(at_most(last, now));
            assert!(now.numerator <= now.denominator);
            last = now;
        }
        assert_eq!(last, LoadProgress::complete());
    }
}
