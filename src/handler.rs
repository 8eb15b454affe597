use vstd::prelude::*;

use crate::keyboard::{KeyboardHandler, KeyboardKey};
use crate::mouse::{MouseButton, MouseHandler};
use crate::result::InputResult;

verus! {

/// A handler that owns its backend directly and forwards to it.
pub struct InputHandler<B> {
    pub(crate) backend: B,
}

impl<B> InputHandler<B> {
    pub closed spec fn backend_spec(&self) -> B {
        self.backend
    }

    pub fn new(backend: B) -> (r: Self)
        ensures
            r.backend_spec() == backend,
    {
        InputHandler { backend }
    }
}

impl<B: MouseHandler> MouseHandler for InputHandler<B> {
    open spec fn press_outcome(&self, button: MouseButton, r: InputResult) -> bool {
        self.backend_spec().press_outcome(button, r)
    }

    open spec fn release_outcome(&self, button: MouseButton, r: InputResult) -> bool {
        self.backend_spec().release_outcome(button, r)
    }

    open spec fn hold_outcome(&self, button: MouseButton, duration_us: u64, r: InputResult) -> bool {
        self.backend_spec().hold_outcome(button, duration_us, r)
    }

    open spec fn move_abs_outcome(&self, x: i32, y: i32, duration_us: u64, r: InputResult) -> bool {
        self.backend_spec().move_abs_outcome(x, y, duration_us, r)
    }

    open spec fn move_rel_outcome(&self, dx: i32, dy: i32, duration_us: u64, r: InputResult) -> bool {
        self.backend_spec().move_rel_outcome(dx, dy, duration_us, r)
    }

    fn press(&self, button: MouseButton) -> (r: InputResult) {
        self.backend.press(button)
    }

    fn release(&self, button: MouseButton) -> (r: InputResult) {
        self.backend.release(button)
    }

    fn click(&self, button: MouseButton) -> (r: InputResult) {
        let r = self.backend.click(button);
        proof {
            let p = choose|p: InputResult|
                #[trigger] self.backend_spec().press_outcome(button, p) && (p is Err ==> r == p) && (p is Ok
                    ==> self.backend_spec().release_outcome(button, r));
            assert(self.press_outcome(button, p));
        }
        r
    }

    fn hold(&self, button: MouseButton, duration_us: u64) -> (r: InputResult) {
        self.backend.hold(button, duration_us)
    }

    fn drag(&self, button: MouseButton, dx: i32, dy: i32, duration_us: u64) -> (r: InputResult) {
        let r = self.backend.drag(button, dx, dy, duration_us);
        proof {
            let p = choose|p: InputResult|
                #[trigger] self.backend_spec().press_outcome(button, p) && (p is Err ==> r == p) && (p is Ok
                    ==> exists|m: InputResult|
                    #[trigger] self.backend_spec().move_rel_outcome(dx, dy, duration_us, m) && (m is Err ==> r
                        == m && exists|q: InputResult| #[trigger] self.backend_spec().release_outcome(button, q))
                        && (m is Ok ==> self.backend_spec().release_outcome(button, r)));
            assert(self.press_outcome(button, p));
            if p is Ok {
                let m = choose|m: InputResult|
                    #[trigger] self.backend_spec().move_rel_outcome(dx, dy, duration_us, m) && (m is Err ==> r
                        == m && exists|q: InputResult| #[trigger] self.backend_spec().release_outcome(button, q))
                        && (m is Ok ==> self.backend_spec().release_outcome(button, r));
                assert(self.move_rel_outcome(dx, dy, duration_us, m));
                if m is Err {
                    let q = choose|q: InputResult| #[trigger] self.backend_spec().release_outcome(button, q);
                    assert(self.release_outcome(button, q));
                }
            }
        }
        r
    }

    fn move_abs(&self, x: i32, y: i32, duration_us: u64) -> (r: InputResult) {
        self.backend.move_abs(x, y, duration_us)
    }

    fn move_rel(&self, dx: i32, dy: i32, duration_us: u64) -> (r: InputResult) {
        self.backend.move_rel(dx, dy, duration_us)
    }
}

impl<B: KeyboardHandler> KeyboardHandler for InputHandler<B> {
    open spec fn press_outcome(&self, key: KeyboardKey, r: InputResult) -> bool {
        self.backend_spec().press_outcome(key, r)
    }

    open spec fn release_outcome(&self, key: KeyboardKey, r: InputResult) -> bool {
        self.backend_spec().release_outcome(key, r)
    }

    open spec fn paused(&self, duration_us: u64) -> bool {
        self.backend_spec().paused(duration_us)
    }

    open spec fn text_outcome(&self, text: Seq<char>, duration_us: u64, r: InputResult) -> bool {
        self.backend_spec().text_outcome(text, duration_us, r)
    }

    fn press(&self, key: KeyboardKey) -> (r: InputResult) {
        self.backend.press(key)
    }

    fn release(&self, key: KeyboardKey) -> (r: InputResult) {
        self.backend.release(key)
    }

    fn pause(&self, duration_us: u64) {
        self.backend.pause(duration_us)
    }

    fn tap(&self, key: KeyboardKey) -> (r: InputResult) {
        let r = self.backend.tap(key);
        proof {
            let p = choose|p: InputResult|
                #[trigger] self.backend_spec().press_outcome(key, p) && (p is Err ==> r == p) && (p is Ok
                    ==> self.backend_spec().release_outcome(key, r));
            assert(self.press_outcome(key, p));
        }
        r
    }

    fn hold(&self, key: KeyboardKey, duration_us: u64) -> (r: InputResult) {
        let r = self.backend.hold(key, duration_us);
        proof {
            let p = choose|p: InputResult|
                #[trigger] self.backend_spec().press_outcome(key, p) && (p is Err ==> r == p) && (p
                    is Ok ==> self.backend_spec().paused(duration_us)
                    && self.backend_spec().release_outcome(key, r));
            assert(self.press_outcome(key, p));
        }
        r
    }

    fn text(&self, text: &str, duration_us: u64) -> (r: InputResult) {
        self.backend.text(text, duration_us)
    }
}

} // verus!
