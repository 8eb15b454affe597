use std::sync::{Arc, Mutex};

use anyinput::handler::InputHandler;
use anyinput::keyboard::{KeyboardHandler, KeyboardKey};
use anyinput::mouse::{MouseButton, MouseHandler};
use anyinput::result::{InputError, InputResult};
use anyinput::session::{Device, Session};
use anyinput::stroke::{Action, Control, Event, Plan, Stroke};
use anyinput::touch::TouchHandler;

#[derive(Debug, Clone, PartialEq)]
enum Call {
    PressKey(KeyboardKey),
    ReleaseKey(KeyboardKey),
    PressButton(MouseButton),
    ReleaseButton(MouseButton),
    MoveBy(i32, i32),
    MoveTo(i32, i32),
    Text(String),
}

/// A backend that records its calls and lives on a simulated clock.
struct Recorder {
    calls: Arc<Mutex<Vec<Call>>>,
    clock_us: Mutex<u64>,
    /// The pointer moves to (1, 1) once the clock reaches this time.
    moves_at_us: Option<u64>,
}

impl Recorder {
    fn new(moves_at_us: Option<u64>) -> (Self, Arc<Mutex<Vec<Call>>>) {
        let calls = Arc::new(Mutex::new(Vec::new()));
        let r = Recorder { calls: calls.clone(), clock_us: Mutex::new(0), moves_at_us };
        (r, calls)
    }

    fn record(&self, c: Call) -> InputResult {
        self.calls.lock().unwrap().push(c);
        Ok(())
    }

    fn now(&self) -> u64 {
        *self.clock_us.lock().unwrap()
    }

    fn drive(&self, control: Control, plan: Plan) -> InputResult {
        let (mut stroke, mut action) = Stroke::start(control, plan);
        let pressed_at = self.now();
        loop {
            let event = match action {
                Action::Finish(r) => return r,
                Action::Press(Control::Button(b)) => Event::Done(self.record(Call::PressButton(b))),
                Action::Release(Control::Button(b)) => {
                    Event::Done(self.record(Call::ReleaseButton(b)))
                }
                Action::Press(Control::Key(k)) => Event::Done(self.record(Call::PressKey(k))),
                Action::Release(Control::Key(k)) => Event::Done(self.record(Call::ReleaseKey(k))),
                Action::MoveBy(dx, dy) => Event::Done(self.record(Call::MoveBy(dx, dy))),
                Action::Sleep(us) => {
                    *self.clock_us.lock().unwrap() += us;
                    Event::Slept
                }
                Action::Locate => {
                    // reading the pointer takes a microsecond
                    *self.clock_us.lock().unwrap() += 1;
                    let now = self.now();
                    let pos = match self.moves_at_us {
                        Some(t) if now >= t => (1, 1),
                        _ => (0, 0),
                    };
                    Event::Located(Ok(pos), now - pressed_at)
                }
            };
            assert!(stroke.expects(&event));
            let (next, a) = stroke.step(event);
            stroke = next;
            action = a;
        }
    }
}

impl KeyboardHandler for Recorder {
    fn press(&self, key: KeyboardKey) -> InputResult {
        self.record(Call::PressKey(key))
    }

    fn release(&self, key: KeyboardKey) -> InputResult {
        self.record(Call::ReleaseKey(key))
    }

    fn pause(&self, duration_us: u64) {
        *self.clock_us.lock().unwrap() += duration_us;
    }

    fn text(&self, text: &str, _duration_us: u64) -> InputResult {
        self.record(Call::Text(text.to_string()))
    }
}

impl MouseHandler for Recorder {
    fn press(&self, button: MouseButton) -> InputResult {
        self.record(Call::PressButton(button))
    }

    fn release(&self, button: MouseButton) -> InputResult {
        self.record(Call::ReleaseButton(button))
    }

    fn hold(&self, button: MouseButton, duration_us: u64) -> InputResult {
        self.drive(Control::Button(button), Plan::WatchedHold(duration_us))
    }

    fn move_abs(&self, x: i32, y: i32, _duration_us: u64) -> InputResult {
        self.record(Call::MoveTo(x, y))
    }

    fn move_rel(&self, dx: i32, dy: i32, _duration_us: u64) -> InputResult {
        self.record(Call::MoveBy(dx, dy))?;
        if dx == i32::MAX {
            return Err(InputError::error("off screen".to_string()));
        }
        Ok(())
    }
}

impl TouchHandler for Recorder {}

fn seconds_to_us(s: f64) -> u64 {
    (s * 1_000_000.0) as u64
}

fn mouse_of(session: &Session<Recorder>) -> anyinput::mouse::MouseDevice<Recorder> {
    match session.get_device("mouse") {
        Ok(Device::Mouse(m)) => m,
        _ => panic!("expected the mouse"),
    }
}

fn keyboard_of(session: &Session<Recorder>) -> anyinput::keyboard::KeyboardDevice<Recorder> {
    match session.get_device("keyboard") {
        Ok(Device::Keyboard(k)) => k,
        _ => panic!("expected the keyboard"),
    }
}

#[test]
fn keyboard_tap_presses_then_releases_once() {
    let (backend, log) = Recorder::new(None);
    let session = Session::new(backend);
    let keyboard = keyboard_of(&session);
    assert!(keyboard.tap(KeyboardKey::Unicode('a')).is_ok());
    assert_eq!(
        *log.lock().unwrap(),
        vec![Call::PressKey(KeyboardKey::Unicode('a')), Call::ReleaseKey(KeyboardKey::Unicode('a'))]
    );
}

#[test]
fn mouse_hold_interrupted_by_movement() {
    let (backend, log) = Recorder::new(Some(seconds_to_us(0.05)));
    let session = Session::new(backend);
    let mouse = mouse_of(&session);
    let button = mouse.get_mouse_button("left").ok().unwrap();
    let r = mouse.hold(button, seconds_to_us(0.2));
    assert!(matches!(r, Err(InputError::Interrupt)));
    let calls = log.lock().unwrap().clone();
    assert_eq!(
        calls,
        vec![Call::PressButton(MouseButton::Left), Call::ReleaseButton(MouseButton::Left)]
    );
}

#[test]
fn mouse_hold_interrupt_comes_before_duration() {
    let (backend, _log) = Recorder::new(Some(seconds_to_us(0.05)));
    let r = MouseHandler::hold(&backend, MouseButton::Left, seconds_to_us(0.2));
    assert!(matches!(r, Err(InputError::Interrupt)));
    let elapsed = backend.now();
    assert!(elapsed >= seconds_to_us(0.05));
    assert!(elapsed < seconds_to_us(0.2));
}

#[test]
fn mouse_hold_stationary_succeeds() {
    let (backend, log) = Recorder::new(None);
    let r = MouseHandler::hold(&backend, MouseButton::Right, 20_000);
    assert!(r.is_ok());
    assert!(backend.now() > 20_000);
    assert_eq!(
        *log.lock().unwrap(),
        vec![Call::PressButton(MouseButton::Right), Call::ReleaseButton(MouseButton::Right)]
    );
}

#[test]
fn keyboard_hold_sleeps_whole_duration() {
    let (backend, log) = Recorder::new(Some(10));
    let r = KeyboardHandler::hold(&backend, KeyboardKey::Shift, 30_000);
    assert!(r.is_ok());
    assert_eq!(backend.now(), 30_000);
    assert_eq!(
        *log.lock().unwrap(),
        vec![Call::PressKey(KeyboardKey::Shift), Call::ReleaseKey(KeyboardKey::Shift)]
    );
}

#[test]
fn drag_presses_moves_releases() {
    let (backend, log) = Recorder::new(None);
    let session = Session::new(backend);
    let mouse = mouse_of(&session);
    assert!(mouse.drag(MouseButton::Middle, 7, -3, 1000).is_ok());
    assert_eq!(
        *log.lock().unwrap(),
        vec![
            Call::PressButton(MouseButton::Middle),
            Call::MoveBy(7, -3),
            Call::ReleaseButton(MouseButton::Middle),
        ]
    );
}

#[test]
fn click_presses_then_releases() {
    let (backend, log) = Recorder::new(None);
    let handler = InputHandler::new(backend);
    assert!(handler.click(MouseButton::Left).is_ok());
    assert!(handler.tap(KeyboardKey::Enter).is_ok());
    assert_eq!(
        *log.lock().unwrap(),
        vec![
            Call::PressButton(MouseButton::Left),
            Call::ReleaseButton(MouseButton::Left),
            Call::PressKey(KeyboardKey::Enter),
            Call::ReleaseKey(KeyboardKey::Enter),
        ]
    );
}

#[test]
fn two_mouse_lookups_share_one_backend() {
    let (backend, log) = Recorder::new(None);
    let session = Session::new(backend);
    let first = mouse_of(&session);
    let second = mouse_of(&session);
    first.move_abs(1, 2, 0).unwrap();
    second.move_rel(3, 4, 0).unwrap();
    keyboard_of(&session).text("hi", 0).unwrap();
    assert_eq!(
        *log.lock().unwrap(),
        vec![Call::MoveTo(1, 2), Call::MoveBy(3, 4), Call::Text("hi".to_string())]
    );
}

#[test]
fn unknown_device_is_a_caller_error() {
    let (backend, _log) = Recorder::new(None);
    let session = Session::new(backend);
    match session.get_device("joystick") {
        Err(InputError::Error(m)) => assert_eq!(m, "Device not found"),
        _ => panic!("expected an error"),
    }
    assert!(matches!(session.get_device("touch"), Ok(Device::Touch(_))));
    assert!(session.get_device("Mouse").is_err());
}

#[test]
fn backend_drag_releases_after_failed_move() {
    let (backend, log) = Recorder::new(None);
    let r = backend.drag(MouseButton::Left, i32::MAX, 0, 0);
    match r {
        Err(InputError::Error(m)) => assert_eq!(m, "off screen"),
        _ => panic!("expected the move's error"),
    }
    assert_eq!(
        *log.lock().unwrap(),
        vec![
            Call::PressButton(MouseButton::Left),
            Call::MoveBy(i32::MAX, 0),
            Call::ReleaseButton(MouseButton::Left),
        ]
    );
}
