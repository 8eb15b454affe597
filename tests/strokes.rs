use anyinput::keyboard::KeyboardKey;
use anyinput::mouse::MouseButton;
use anyinput::result::{InputError, InputResult};
use anyinput::stroke::{Action, Control, Event, Plan, Stroke, POLL_INTERVAL_US};

/// Feeds `events` to a fresh operation and describes every action taken.
fn trace(control: Control, plan: Plan, events: Vec<Event>) -> Vec<String> {
    let (mut stroke, first) = Stroke::start(control, plan);
    let mut out = vec![describe(&first)];
    for e in events {
        assert!(stroke.expects(&e));
        let (next, a) = stroke.step(e);
        out.push(describe(&a));
        stroke = next;
    }
    out
}

fn describe(a: &Action) -> String {
    match a {
        Action::Press(c) => format!("press {:?}", c),
        Action::Release(c) => format!("release {:?}", c),
        Action::MoveBy(dx, dy) => format!("move {} {}", dx, dy),
        Action::Sleep(us) => format!("sleep {}", us),
        Action::Locate => "locate".to_string(),
        Action::Finish(Ok(())) => "ok".to_string(),
        Action::Finish(Err(InputError::Interrupt)) => "interrupt".to_string(),
        Action::Finish(Err(InputError::Error(m))) => format!("error {}", m),
    }
}

fn ok() -> Event {
    Event::Done(Ok(()))
}

fn failed(m: &str) -> Event {
    let r: InputResult = Err(InputError::Error(m.to_string()));
    Event::Done(r)
}

const A: Control = Control::Key(KeyboardKey::Unicode('a'));
const LEFT: Control = Control::Button(MouseButton::Left);

#[test]
fn tap_with_both_primitives_ok() {
    assert_eq!(trace(A, Plan::Tap, vec![ok(), ok()]), vec![
        "press Key(Unicode('a'))",
        "release Key(Unicode('a'))",
        "ok"
    ]);
}

#[test]
fn tap_with_failed_press_skips_release() {
    let (stroke, _) = Stroke::start(A, Plan::Tap);
    let (stroke, a) = stroke.step(failed("no"));
    assert_eq!(describe(&a), "error no");
    assert!(stroke.is_finished());
    assert!(!stroke.expects(&ok()));
}

#[test]
fn tap_with_failed_release_reports_it() {
    assert_eq!(trace(A, Plan::Tap, vec![ok(), failed("stuck")]).last().unwrap(), "error stuck");
}

#[test]
fn keyboard_hold_sequence() {
    assert_eq!(trace(A, Plan::Hold(200_000), vec![ok(), Event::Slept, ok()]), vec![
        "press Key(Unicode('a'))",
        "sleep 200000",
        "release Key(Unicode('a'))",
        "ok"
    ]);
}

#[test]
fn drag_sequence() {
    assert_eq!(trace(LEFT, Plan::Drag(10, -20), vec![ok(), ok(), ok()]), vec![
        "press Button(Left)",
        "move 10 -20",
        "release Button(Left)",
        "ok"
    ]);
}

#[test]
fn drag_releases_after_failed_move() {
    assert_eq!(trace(LEFT, Plan::Drag(1, 1), vec![ok(), failed("off screen"), ok()]), vec![
        "press Button(Left)",
        "move 1 1",
        "release Button(Left)",
        "error off screen"
    ]);
    // the move's failure wins over the release's
    assert_eq!(
        trace(LEFT, Plan::Drag(1, 1), vec![ok(), failed("first"), failed("second")])
            .last()
            .unwrap(),
        "error first"
    );
}

#[test]
fn watched_hold_polls_in_slices() {
    let events = vec![
        ok(),
        Event::Located(Ok((4, 4)), 0),
        Event::Slept,
        Event::Located(Ok((4, 4)), 5_000),
        Event::Slept,
        Event::Located(Ok((4, 4)), 10_000),
        Event::Slept,
        Event::Located(Ok((4, 4)), 12_001),
        ok(),
    ];
    assert_eq!(trace(LEFT, Plan::WatchedHold(12_000), events), vec![
        "press Button(Left)",
        "locate",
        "sleep 5000",
        "locate",
        "sleep 5000",
        "locate",
        "sleep 2000",
        "locate",
        "release Button(Left)",
        "ok"
    ]);
    assert_eq!(POLL_INTERVAL_US, 5000);
}

#[test]
fn watched_hold_at_exact_duration_sleeps_zero() {
    let events = vec![ok(), Event::Located(Ok((0, 0)), 300)];
    assert_eq!(trace(LEFT, Plan::WatchedHold(300), events).last().unwrap(), "sleep 0");
}

#[test]
fn watched_hold_interrupted_by_movement() {
    let events = vec![
        ok(),
        Event::Located(Ok((4, 4)), 0),
        Event::Slept,
        Event::Located(Ok((5, 4)), 5_000),
        failed("release failed"),
    ];
    assert_eq!(trace(LEFT, Plan::WatchedHold(200_000), events), vec![
        "press Button(Left)",
        "locate",
        "sleep 5000",
        "locate",
        "release Button(Left)",
        "interrupt"
    ]);
}

#[test]
fn watched_hold_with_unreadable_pointer() {
    let events = vec![
        ok(),
        Event::Located(Err(InputError::Error("no display".to_string())), 0),
        ok(),
    ];
    assert_eq!(trace(LEFT, Plan::WatchedHold(1_000), events), vec![
        "press Button(Left)",
        "locate",
        "release Button(Left)",
        "error no display"
    ]);
}

#[test]
fn watched_hold_with_failed_press() {
    assert_eq!(trace(LEFT, Plan::WatchedHold(1_000), vec![failed("busy")]), vec![
        "press Button(Left)",
        "error busy"
    ]);
}

#[test]
fn events_of_the_wrong_kind_are_not_expected() {
    let (stroke, _) = Stroke::start(LEFT, Plan::WatchedHold(10));
    assert!(!stroke.expects(&Event::Slept));
    let (stroke, _) = stroke.step(ok());
    assert!(stroke.expects(&Event::Located(Ok((0, 0)), 0)));
    assert!(!stroke.expects(&ok()));
}
