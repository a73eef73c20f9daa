use colorbot::executor::{Command, Draws, ExecState, Outcome, Phase, COOLDOWN_MAX_MS, COOLDOWN_MIN_MS, POLL_MS};
use colorbot::geometry::Point;
use colorbot::scan::Match;
use colorbot::script::{ClickKind, Event, KeyEvent, MouseEvent};

fn pointer(count: u32, delay: [u32; 2], skip: bool) -> Event {
    Event::Pointer(MouseEvent {
        id: "target".to_string(),
        color: [10, 20, 30],
        action: ClickKind::LeftClick,
        delay_rng: delay,
        count,
        skip_if_vanished: skip,
    })
}

fn seen() -> Outcome {
    Outcome::Scanned(vec![Match { x: 10, y: 10, density: 9 }])
}

fn draws(delay: u32, cooldown: u32) -> Draws {
    Draws { delay, cooldown, pick: 0, dx: 0, dy: 0 }
}

#[test]
fn vanished_signature_cuts_the_wait_short() {
    let ev = pointer(2, [1000, 1000], true);
    let mut st = ExecState::start(&ev);
    assert_eq!(st.step(&ev, &Outcome::Started), Command::Scan);
    match st.step(&ev, &seen()) {
        Command::Act { target, kind } => {
            assert!(target.x >= 5 && target.x <= 15 && target.y >= 5 && target.y <= 15);
            assert_eq!(kind, ClickKind::LeftClick);
        }
        other => panic!("expected an action, got {:?}", other),
    }
    let first_poll = st.step(&ev, &Outcome::Acted);
    assert_eq!(first_poll, Command::Poll(POLL_MS));
    // the color is gone at the first poll
    let cooldown = match st.step(&ev, &Outcome::Scanned(vec![])) {
        Command::Sleep(ms) => ms,
        other => panic!("expected a cooldown, got {:?}", other),
    };
    assert!(cooldown >= COOLDOWN_MIN_MS && cooldown <= COOLDOWN_MAX_MS);
    assert!(POLL_MS + cooldown < 1000);
    // the next attempt starts right after the cooldown
    assert_eq!(st.step(&ev, &Outcome::Slept), Command::Scan);
    assert_eq!(st.remaining, 1);
}

#[test]
fn vanished_signature_exact_path() {
    let ev = pointer(1, [500, 900], true);
    let mut st = ExecState::start(&ev);
    let d = draws(700, 250);
    assert_eq!(st.step_with(&ev, &Outcome::Started, &d), Command::Scan);
    assert_eq!(
        st.step_with(&ev, &seen(), &Draws { delay: 700, cooldown: 250, pick: 0, dx: 2, dy: -3 }),
        Command::Act { target: Point::new(12, 7), kind: ClickKind::LeftClick }
    );
    assert_eq!(st.step_with(&ev, &Outcome::Acted, &d), Command::Poll(100));
    assert_eq!(st.phase, Phase::Monitoring { waited: 100, total: 700 });
    assert_eq!(st.step_with(&ev, &Outcome::Scanned(vec![]), &d), Command::Sleep(250));
    assert_eq!(st.step_with(&ev, &Outcome::Slept, &d), Command::Done);
    assert!(st.is_finished());
}

#[test]
fn key_event_presses_and_waits_count_times() {
    let ev = Event::Key(KeyEvent { id: "press 7".to_string(), key: "7".to_string(), delay_rng: [10, 10], count: 3 });
    let mut st = ExecState::start(&ev);
    let mut commands = Vec::new();
    let mut out = Outcome::Started;
    loop {
        let cmd = st.step(&ev, &out);
        commands.push(cmd);
        out = match cmd {
            Command::PressKey => Outcome::KeyPressed,
            Command::Sleep(_) => Outcome::Slept,
            Command::Done => break,
            other => panic!("unexpected {:?}", other),
        };
    }
    assert_eq!(
        commands,
        vec![
            Command::PressKey,
            Command::Sleep(10),
            Command::PressKey,
            Command::Sleep(10),
            Command::PressKey,
            Command::Sleep(10),
            Command::Done
        ]
    );
}

#[test]
fn missing_color_waits_the_full_delay_without_skip() {
    let ev = pointer(1, [300, 400], false);
    let mut st = ExecState::start(&ev);
    st.step(&ev, &Outcome::Started);
    match st.step(&ev, &Outcome::Scanned(vec![])) {
        Command::Sleep(ms) => assert!(ms >= 300 && ms <= 400),
        other => panic!("expected the full delay, got {:?}", other),
    }
    assert_eq!(st.step(&ev, &Outcome::Slept), Command::Done);
}

#[test]
fn missing_color_takes_short_cooldown_with_skip() {
    let ev = pointer(1, [5000, 5000], true);
    let mut st = ExecState::start(&ev);
    let d = draws(5000, 333);
    st.step_with(&ev, &Outcome::Started, &d);
    assert_eq!(st.step_with(&ev, &Outcome::Scanned(vec![]), &d), Command::Sleep(333));
}

#[test]
fn action_without_skip_sleeps_the_whole_delay() {
    let ev = pointer(2, [250, 250], false);
    let mut st = ExecState::start(&ev);
    let d = draws(250, 300);
    st.step_with(&ev, &Outcome::Started, &d);
    st.step_with(&ev, &seen(), &d);
    assert_eq!(st.step_with(&ev, &Outcome::Acted, &d), Command::Sleep(250));
    assert_eq!(st.step_with(&ev, &Outcome::Slept, &d), Command::Scan);
    assert_eq!(st.remaining, 1);
}

#[test]
fn present_signature_is_polled_until_the_delay_is_spent() {
    let ev = pointer(1, [250, 250], true);
    let mut st = ExecState::start(&ev);
    let d = draws(250, 300);
    st.step_with(&ev, &Outcome::Started, &d);
    st.step_with(&ev, &seen(), &d);
    assert_eq!(st.step_with(&ev, &Outcome::Acted, &d), Command::Poll(100));
    assert_eq!(st.step_with(&ev, &seen(), &d), Command::Poll(100));
    assert_eq!(st.step_with(&ev, &seen(), &d), Command::Poll(50));
    assert_eq!(st.step_with(&ev, &seen(), &d), Command::Done);
}

#[test]
fn zero_delay_monitor_ends_at_once() {
    let ev = pointer(1, [0, 0], true);
    let mut st = ExecState::start(&ev);
    let d = draws(0, 200);
    st.step_with(&ev, &Outcome::Started, &d);
    st.step_with(&ev, &seen(), &d);
    assert_eq!(st.step_with(&ev, &Outcome::Acted, &d), Command::Poll(0));
    assert_eq!(st.step_with(&ev, &seen(), &d), Command::Done);
}

#[test]
fn outcomes_are_checked_against_the_phase() {
    let ev = pointer(1, [1, 2], false);
    let st = ExecState::start(&ev);
    assert!(st.expects(&Outcome::Started));
    assert!(!st.expects(&Outcome::Slept));
    assert!(ev.is_well_formed());
    assert!(!pointer(0, [1, 2], false).is_well_formed());
    assert!(!pointer(1, [3, 2], false).is_well_formed());
}
