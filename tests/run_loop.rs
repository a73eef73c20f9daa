use std::path::PathBuf;

use colorbot::color::ColorSignature;
use colorbot::run_loop::{run_event_loop, run_expects, Guard, RunCommand, RunOutcome, RunPhase};
use colorbot::scan::Match;
use colorbot::script::{parse_click_kind, BotConfig, BotError, ClickKind};

fn config(runtime: u32) -> BotConfig {
    BotConfig::new(PathBuf::from("script.json"), runtime, 30, 3, false)
}

#[test]
fn config_keeps_its_values() {
    let c = BotConfig::new(PathBuf::from("a.json"), 60, 12, 4, true);
    assert_eq!(c.script, PathBuf::from("a.json"));
    assert_eq!((c.runtime, c.mouse_deviation, c.mouse_speed, c.debug), (60, 12, 4, true));
}

#[test]
fn passes_repeat_until_the_deadline() {
    let c = config(2);
    let mut phase = RunPhase::Start;
    assert_eq!(run_event_loop(&c, None, 2, &mut phase, &RunOutcome::Started), RunCommand::CheckClock);
    assert_eq!(run_event_loop(&c, None, 2, &mut phase, &RunOutcome::Elapsed(0)), RunCommand::Execute(0));
    assert_eq!(run_event_loop(&c, None, 2, &mut phase, &RunOutcome::EventDone), RunCommand::Execute(1));
    assert_eq!(run_event_loop(&c, None, 2, &mut phase, &RunOutcome::EventDone), RunCommand::CheckClock);
    assert_eq!(run_event_loop(&c, None, 2, &mut phase, &RunOutcome::Elapsed(1999)), RunCommand::Execute(0));
    assert_eq!(run_event_loop(&c, None, 2, &mut phase, &RunOutcome::EventDone), RunCommand::Execute(1));
    // the deadline passes in the middle of the pass: the pass still completes
    assert_eq!(run_event_loop(&c, None, 2, &mut phase, &RunOutcome::EventDone), RunCommand::CheckClock);
    assert_eq!(run_event_loop(&c, None, 2, &mut phase, &RunOutcome::Elapsed(2000)), RunCommand::Finish);
    assert_eq!(phase, RunPhase::Finished);
}

#[test]
fn guard_blocks_until_it_clears() {
    let c = config(10);
    let g = Guard { signature: ColorSignature::new([255, 0, 0]), key: "Escape".to_string(), backoff_ms: 1500 };
    let mut phase = RunPhase::Start;
    let seen = RunOutcome::Scanned(vec![Match { x: 4, y: 4, density: 9 }]);
    assert_eq!(run_event_loop(&c, Some(&g), 1, &mut phase, &RunOutcome::Started), RunCommand::CheckGuard);
    for _ in 0..3 {
        assert_eq!(run_event_loop(&c, Some(&g), 1, &mut phase, &seen), RunCommand::PressGuardKey);
        assert_eq!(run_event_loop(&c, Some(&g), 1, &mut phase, &RunOutcome::KeyPressed), RunCommand::Backoff(1500));
        assert_eq!(run_event_loop(&c, Some(&g), 1, &mut phase, &RunOutcome::Slept), RunCommand::CheckGuard);
    }
    assert_eq!(run_event_loop(&c, Some(&g), 1, &mut phase, &RunOutcome::Scanned(vec![])), RunCommand::CheckClock);
    assert_eq!(run_event_loop(&c, Some(&g), 1, &mut phase, &RunOutcome::Elapsed(5)), RunCommand::Execute(0));
}

#[test]
fn zero_runtime_runs_nothing() {
    let c = config(0);
    let mut phase = RunPhase::Start;
    run_event_loop(&c, None, 3, &mut phase, &RunOutcome::Started);
    assert_eq!(run_event_loop(&c, None, 3, &mut phase, &RunOutcome::Elapsed(0)), RunCommand::Finish);
}

#[test]
fn empty_script_only_watches_the_clock() {
    let c = config(1);
    let mut phase = RunPhase::Clock;
    assert_eq!(run_event_loop(&c, None, 0, &mut phase, &RunOutcome::Elapsed(10)), RunCommand::CheckClock);
    assert_eq!(run_event_loop(&c, None, 0, &mut phase, &RunOutcome::Elapsed(1000)), RunCommand::Finish);
}

#[test]
fn run_outcomes_are_checked_against_the_phase() {
    assert!(run_expects(RunPhase::Start, &RunOutcome::Started));
    assert!(run_expects(RunPhase::Running { cursor: 0 }, &RunOutcome::EventDone));
    assert!(!run_expects(RunPhase::Clock, &RunOutcome::EventDone));
    assert!(!run_expects(RunPhase::Finished, &RunOutcome::Started));
}

#[test]
fn action_tokens_parse() {
    assert_eq!(parse_click_kind("left_click"), Ok(ClickKind::LeftClick));
    assert_eq!(parse_click_kind("right_click"), Ok(ClickKind::RightClick));
    assert_eq!(parse_click_kind("shift_click"), Ok(ClickKind::ShiftClick));
    assert_eq!(parse_click_kind("middle_click"), Err(BotError::Configuration));
    assert_eq!(parse_click_kind(""), Err(BotError::Configuration));
    assert_eq!(parse_click_kind("left_clic"), Err(BotError::Configuration));
}
