use vstd::prelude::*;

use std::sync::Arc;

use crate::result::{InputError, InputResult};
use crate::text::same_text;

verus! {

/// The mouse buttons.
#[derive(Clone, Copy, Debug, PartialEq, Eq, Structural)]
pub enum MouseButton {
    /// The left mouse button.
    Left,
    /// The right mouse button.
    Right,
    /// The middle mouse button.
    Middle,
}

/// What `str::to_lowercase` returns for a string.
pub uninterp spec fn lower_of(s: Seq<char>) -> Seq<char>;

/// Relies on `str::to_lowercase`: the result depends on the characters alone.
#[verifier::external_body]
fn lowercase(s: &str) -> (r: String)
    ensures
        r@ == lower_of(s@),
{
    s.to_lowercase()
}

/// The button that a lower-case name denotes.
pub open spec fn button_named(name: Seq<char>) -> Option<MouseButton> {
    if name == "left"@ {
        Some(MouseButton::Left)
    } else if name == "right"@ {
        Some(MouseButton::Right)
    } else if name == "middle"@ {
        Some(MouseButton::Middle)
    } else {
        None
    }
}

impl MouseButton {
    /// Parses a button name, ignoring case.
    pub fn from_str(s: &str) -> (r: Option<Self>)
        ensures
            r == button_named(lower_of(s@)),
    {
        let folded = lowercase(s);
        Self::from_folded(folded.as_str())
    }

    /// Parses a button name that is already in lower case.
    pub fn from_folded(name: &str) -> (r: Option<Self>)
        ensures
            r == button_named(name@),
    {
        if same_text(name, "left") {
            Some(MouseButton::Left)
        } else if same_text(name, "right") {
            Some(MouseButton::Right)
        } else if same_text(name, "middle") {
            Some(MouseButton::Middle)
        } else {
            None
        }
    }
}

/// The mouse operations a backend provides. Durations are in microseconds;
/// the moves take one but do not animate yet: they are instantaneous.
/// Every method takes `&self`: an implementer shared between callers
/// synchronises internally.
///
/// What a backend reports for an operation is named by its `*_outcome`
/// predicates (by default it may report anything); the composite
/// operations are stated over them.
pub trait MouseHandler {
    /// Whether `r` is what pressing `button` may report.
    open spec fn press_outcome(&self, button: MouseButton, r: InputResult) -> bool {
        true
    }

    /// Whether `r` is what releasing `button` may report.
    open spec fn release_outcome(&self, button: MouseButton, r: InputResult) -> bool {
        true
    }

    /// Whether `r` is what a watched hold of `button` may report.
    open spec fn hold_outcome(&self, button: MouseButton, duration_us: u64, r: InputResult) -> bool {
        true
    }

    /// Whether `r` is what putting the pointer at (`x`, `y`) may report.
    open spec fn move_abs_outcome(&self, x: i32, y: i32, duration_us: u64, r: InputResult) -> bool {
        true
    }

    /// Whether `r` is what moving the pointer by (`dx`, `dy`) may report.
    open spec fn move_rel_outcome(&self, dx: i32, dy: i32, duration_us: u64, r: InputResult) -> bool {
        true
    }

    /// Press a button down.
    fn press(&self, button: MouseButton) -> (r: InputResult)
        ensures
            self.press_outcome(button, r),
    ;

    /// Let a button up.
    fn release(&self, button: MouseButton) -> (r: InputResult)
        ensures
            self.release_outcome(button, r),
    ;

    /// Press a button, then release it (`Plan::Tap`); a failed press skips
    /// the release and is returned, otherwise the release's outcome is.
    fn click(&self, button: MouseButton) -> (r: InputResult)
        ensures
            exists|p: InputResult|
                #[trigger] self.press_outcome(button, p) && (p is Err ==> r == p) && (p is Ok
                    ==> self.release_outcome(button, r)),
    {
        match self.press(button) {
            Ok(()) => self.release(button),
            Err(e) => Err(e),
        }
    }

    /// Press a button and keep it down for the duration unless the pointer
    /// moves, then release it. A backend runs `Plan::WatchedHold`, whose
    /// sequence and interruption are proved in `stroke`; the polling loop
    /// waits on the clock and so stands with the backend.
    fn hold(&self, button: MouseButton, duration_us: u64) -> (r: InputResult)
        ensures
            self.hold_outcome(button, duration_us, r),
    ;

    /// Press a button, move the pointer by an offset, release it
    /// (`Plan::Drag`). A failed press skips the rest and is returned; after
    /// it the button is released whatever the move reported, and a failed
    /// move is returned, otherwise the release's outcome is.
    fn drag(&self, button: MouseButton, dx: i32, dy: i32, duration_us: u64) -> (r: InputResult)
        ensures
            exists|p: InputResult|
                #[trigger] self.press_outcome(button, p) && (p is Err ==> r == p) && (p is Ok
                    ==> exists|m: InputResult|
                    #[trigger] self.move_rel_outcome(dx, dy, duration_us, m) && (m is Err ==> r
                        == m && exists|q: InputResult| #[trigger] self.release_outcome(button, q))
                        && (m is Ok ==> self.release_outcome(button, r))),
    {
        let pressed = self.press(button);
        match pressed {
            Ok(()) => {
                let moved = self.move_rel(dx, dy, duration_us);
                let released = self.release(button);
                match moved {
                    Ok(()) => released,
                    Err(e) => {
                        assert(self.release_outcome(button, released));
                        Err(e)
                    },
                }
            },
            Err(e) => Err(e),
        }
    }

    /// Put the pointer at an absolute position.
    fn move_abs(&self, x: i32, y: i32, duration_us: u64) -> (r: InputResult)
        ensures
            self.move_abs_outcome(x, y, duration_us, r),
    ;

    /// Move the pointer by an offset.
    fn move_rel(&self, dx: i32, dy: i32, duration_us: u64) -> (r: InputResult)
        ensures
            self.move_rel_outcome(dx, dy, duration_us, r),
    ;
}

/// A shareable mouse that forwards every call to one backend.
pub struct MouseDevice<H> {
    backend: Arc<H>,
}

impl<H> MouseDevice<H> {
    /// The backend this device forwards to.
    pub closed spec fn handle(&self) -> Arc<H> {
        self.backend
    }

    pub fn new(backend: Arc<H>) -> (r: Self)
        ensures
            r.handle() == backend,
    {
        MouseDevice { backend }
    }

    /// Parses a button name given by a caller, ignoring case; an unknown
    /// name is a caller error.
    pub fn get_mouse_button(&self, button: &str) -> (r: Result<MouseButton, InputError>)
        ensures
            match button_named(lower_of(button@)) {
                Some(b) => r == Ok::<MouseButton, InputError>(b),
                None => r is Err && r->Err_0 is Error
                    && r->Err_0->Error_0@ == "Invalid mouse button"@,
            },
    {
        match MouseButton::from_str(button) {
            Some(b) => Ok(b),
            None => Err(InputError::error(String::from_str("Invalid mouse button"))),
        }
    }
}

impl<H> Clone for MouseDevice<H> {
    /// Another handle on the same backend.
    fn clone(&self) -> (r: Self)
        ensures
            r.handle() == self.handle(),
    {
        MouseDevice { backend: Arc::clone(&self.backend) }
    }
}

impl<H: MouseHandler> MouseHandler for MouseDevice<H> {
    open spec fn press_outcome(&self, button: MouseButton, r: InputResult) -> bool {
        (*self.handle()).press_outcome(button, r)
    }

    open spec fn release_outcome(&self, button: MouseButton, r: InputResult) -> bool {
        (*self.handle()).release_outcome(button, r)
    }

    open spec fn hold_outcome(&self, button: MouseButton, duration_us: u64, r: InputResult) -> bool {
        (*self.handle()).hold_outcome(button, duration_us, r)
    }

    open spec fn move_abs_outcome(&self, x: i32, y: i32, duration_us: u64, r: InputResult) -> bool {
        (*self.handle()).move_abs_outcome(x, y, duration_us, r)
    }

    open spec fn move_rel_outcome(&self, dx: i32, dy: i32, duration_us: u64, r: InputResult) -> bool {
        (*self.handle()).move_rel_outcome(dx, dy, duration_us, r)
    }

    fn press(&self, button: MouseButton) -> (r: InputResult) {
        self.backend.press(button)
    }

    fn release(&self, button: MouseButton) -> (r: InputResult) {
        self.backend.release(button)
    }

    fn click(&self, button: MouseButton) -> (r: InputResult) {
        let r = self.backend.click(button);
        proof {
            let p = choose|p: InputResult|
                #[trigger] (*self.handle()).press_outcome(button, p) && (p is Err ==> r == p) && (p is Ok
                    ==> (*self.handle()).release_outcome(button, r));
            assert(self.press_outcome(button, p));
        }
        r
    }

    fn hold(&self, button: MouseButton, duration_us: u64) -> (r: InputResult) {
        self.backend.hold(button, duration_us)
    }

    fn drag(&self, button: MouseButton, dx: i32, dy: i32, duration_us: u64) -> (r: InputResult) {
        let r = self.backend.drag(button, dx, dy, duration_us);
        proof {
            let p = choose|p: InputResult|
                #[trigger] (*self.handle()).press_outcome(button, p) && (p is Err ==> r == p) && (p is Ok
                    ==> exists|m: InputResult|
                    #[trigger] (*self.handle()).move_rel_outcome(dx, dy, duration_us, m) && (m is Err ==> r
                        == m && exists|q: InputResult| #[trigger] (*self.handle()).release_outcome(button, q))
                        && (m is Ok ==> (*self.handle()).release_outcome(button, r)));
            assert(self.press_outcome(button, p));
            if p is Ok {
                let m = choose|m: InputResult|
                    #[trigger] (*self.handle()).move_rel_outcome(dx, dy, duration_us, m) && (m is Err ==> r
                        == m && exists|q: InputResult| #[trigger] (*self.handle()).release_outcome(button, q))
                        && (m is Ok ==> (*self.handle()).release_outcome(button, r));
                assert(self.move_rel_outcome(dx, dy, duration_us, m));
                if m is Err {
                    let q = choose|q: InputResult| #[trigger] (*self.handle()).release_outcome(button, q);
                    assert(self.release_outcome(button, q));
                }
            }
        }
        r
    }

    fn move_abs(&self, x: i32, y: i32, duration_us: u64) -> (r: InputResult) {
        self.backend.move_abs(x, y, duration_us)
    }

    fn move_rel(&self, dx: i32, dy: i32, duration_us: u64) -> (r: InputResult) {
        self.backend.move_rel(dx, dy, duration_us)
    }
}

} // verus!
