use vstd::prelude::*;

use std::sync::Arc;

use crate::result::InputResult;

verus! {

/// The keyboard keys that can be synthesised.
#[derive(Clone, Copy, Debug, PartialEq, Eq, Structural)]
pub enum KeyboardKey {
    Unicode(char),
    Control,
    Shift,
    Alt,
    Enter,
    Escape,
    Tab,
    ArrowUp,
    ArrowDown,
    ArrowLeft,
    ArrowRight,
    Home,
    End,
    PageUp,
    PageDown,
}

/// The keyboard operations a backend provides. Durations are in
/// microseconds. Every method takes `&self`: an implementer shared between
/// callers synchronises internally.
///
/// What a backend reports for a primitive is named by its `*_outcome`
/// predicates (by default it may report anything); the composite
/// operations are stated over them.
pub trait KeyboardHandler {
    /// Whether `r` is what pressing `key` may report.
    open spec fn press_outcome(&self, key: KeyboardKey, r: InputResult) -> bool {
        true
    }

    /// Whether `r` is what releasing `key` may report.
    open spec fn release_outcome(&self, key: KeyboardKey, r: InputResult) -> bool {
        true
    }

    /// Whether the caller has been blocked for the duration.
    open spec fn paused(&self, duration_us: u64) -> bool {
        true
    }

    /// Whether `r` is what typing `text` may report.
    open spec fn text_outcome(&self, text: Seq<char>, duration_us: u64, r: InputResult) -> bool {
        true
    }

    /// Press a key down.
    fn press(&self, key: KeyboardKey) -> (r: InputResult)
        ensures
            self.press_outcome(key, r),
    ;

    /// Let a key up.
    fn release(&self, key: KeyboardKey) -> (r: InputResult)
        ensures
            self.release_outcome(key, r),
    ;

    /// Block the caller for at least the duration.
    fn pause(&self, duration_us: u64)
        ensures
            self.paused(duration_us),
    ;

    /// Press a key, then release it (`Plan::Tap`); a failed press skips the
    /// release and is returned, otherwise the release's outcome is.
    fn tap(&self, key: KeyboardKey) -> (r: InputResult)
        ensures
            exists|p: InputResult|
                #[trigger] self.press_outcome(key, p) && (p is Err ==> r == p) && (p is Ok
                    ==> self.release_outcome(key, r)),
    {
        let pressed = self.press(key);
        match pressed {
            Ok(()) => self.release(key),
            Err(e) => Err(e),
        }
    }

    /// Press a key, block for the duration, release it (`Plan::Hold`); a
    /// failed press skips the rest and is returned, otherwise the release's
    /// outcome is.
    fn hold(&self, key: KeyboardKey, duration_us: u64) -> (r: InputResult)
        ensures
            exists|p: InputResult|
                #[trigger] self.press_outcome(key, p) && (p is Err ==> r == p) && (p is Ok
                    ==> self.paused(duration_us) && self.release_outcome(key, r)),
    {
        let pressed = self.press(key);
        match pressed {
            Ok(()) => {
                self.pause(duration_us);
                self.release(key)
            },
            Err(e) => Err(e),
        }
    }

    /// Type a literal string, bypassing per-key presses.
    fn text(&self, text: &str, duration_us: u64) -> (r: InputResult)
        ensures
            self.text_outcome(text@, duration_us, r),
    ;
}

/// A shareable keyboard that forwards every call to one backend.
pub struct KeyboardDevice<H> {
    backend: Arc<H>,
}

impl<H> KeyboardDevice<H> {
    /// The backend this device forwards to.
    pub closed spec fn handle(&self) -> Arc<H> {
        self.backend
    }

    pub fn new(backend: Arc<H>) -> (r: Self)
        ensures
            r.handle() == backend,
    {
        KeyboardDevice { backend }
    }
}

impl<H> Clone for KeyboardDevice<H> {
    /// Another handle on the same backend.
    fn clone(&self) -> (r: Self)
        ensures
            r.handle() == self.handle(),
    {
        KeyboardDevice { backend: Arc::clone(&self.backend) }
    }
}

impl<H: KeyboardHandler> KeyboardHandler for KeyboardDevice<H> {
    open spec fn press_outcome(&self, key: KeyboardKey, r: InputResult) -> bool {
        (*self.handle()).press_outcome(key, r)
    }

    open spec fn release_outcome(&self, key: KeyboardKey, r: InputResult) -> bool {
        (*self.handle()).release_outcome(key, r)
    }

    open spec fn paused(&self, duration_us: u64) -> bool {
        (*self.handle()).paused(duration_us)
    }

    open spec fn text_outcome(&self, text: Seq<char>, duration_us: u64, r: InputResult) -> bool {
        (*self.handle()).text_outcome(text, duration_us, r)
    }

    fn press(&self, key: KeyboardKey) -> (r: InputResult) {
        self.backend.press(key)
    }

    fn release(&self, key: KeyboardKey) -> (r: InputResult) {
        self.backend.release(key)
    }

    fn pause(&self, duration_us: u64) {
        self.backend.pause(duration_us)
    }

    fn tap(&self, key: KeyboardKey) -> (r: InputResult) {
        let r = self.backend.tap(key);
        proof {
            let p = choose|p: InputResult|
                #[trigger] (*self.handle()).press_outcome(key, p) && (p is Err ==> r == p) && (p is Ok
                    ==> (*self.handle()).release_outcome(key, r));
            assert(self.press_outcome(key, p));
        }
        r
    }

    fn hold(&self, key: KeyboardKey, duration_us: u64) -> (r: InputResult) {
        let r = self.backend.hold(key, duration_us);
        proof {
            let p = choose|p: InputResult|
                #[trigger] (*self.handle()).press_outcome(key, p) && (p is Err ==> r == p) && (p
                    is Ok ==> (*self.handle()).paused(duration_us) && (*self.handle()).release_outcome(key, r));
            assert(self.press_outcome(key, p));
        }
        r
    }

    fn text(&self, text: &str, duration_us: u64) -> (r: InputResult) {
        self.backend.text(text, duration_us)
    }
}

} // verus!
