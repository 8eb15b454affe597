use vstd::prelude::*;

use std::sync::Arc;

use crate::keyboard::{KeyboardDevice, KeyboardHandler};
use crate::mouse::{MouseDevice, MouseHandler};
use crate::result::InputError;
use crate::text::same_text;
use crate::touch::{TouchDevice, TouchHandler};

verus! {

/// One of the devices that a session hands out.
pub enum Device<B> {
    Mouse(MouseDevice<B>),
    Keyboard(KeyboardDevice<B>),
    Touch(TouchDevice<B>),
}

/// One backend, shared by a mouse, a keyboard and a touch device.
pub struct Session<B> {
    backend: Arc<B>,
    mouse_device: MouseDevice<B>,
    keyboard_device: KeyboardDevice<B>,
    touch_device: TouchDevice<B>,
}

impl<B> Session<B> {
    /// The backend that every device of the session forwards to.
    pub closed spec fn handle(&self) -> Arc<B> {
        self.backend
    }

    #[verifier::type_invariant]
    spec fn shares_backend(&self) -> bool {
        &&& self.mouse_device.handle() == self.backend
        &&& self.keyboard_device.handle() == self.backend
        &&& self.touch_device.handle() == self.backend
    }

    /// Whether `r` is what looking up the device called `name` gives: the
    /// device of that name on the session's backend, or an error for an
    /// unknown name.
    pub open spec fn serves(&self, name: Seq<char>, r: Result<Device<B>, InputError>) -> bool {
        match r {
            Ok(Device::Mouse(m)) => name == "mouse"@ && m.handle() == self.handle(),
            Ok(Device::Keyboard(k)) => name == "keyboard"@ && k.handle() == self.handle(),
            Ok(Device::Touch(t)) => name == "touch"@ && t.handle() == self.handle(),
            Err(e) => {
                &&& name != "mouse"@
                &&& name != "keyboard"@
                &&& name != "touch"@
                &&& e is Error
                &&& e->Error_0@ == "Device not found"@
            },
        }
    }

    /// Makes a session whose three devices share `backend`.
    pub fn new(backend: B) -> (r: Self)
        where
            B: MouseHandler + KeyboardHandler + TouchHandler,
        ensures
            *r.handle() == backend,
    {
        let backend = Arc::new(backend);
        let mouse_device = MouseDevice::new(Arc::clone(&backend));
        let keyboard_device = KeyboardDevice::new(Arc::clone(&backend));
        let touch_device = TouchDevice::new(Arc::clone(&backend));
        Session { backend, mouse_device, keyboard_device, touch_device }
    }

    /// The device called `name` ("mouse", "keyboard" or "touch").
    pub fn get_device(&self, name: &str) -> (r: Result<Device<B>, InputError>)
        ensures
            self.serves(name@, r),
    {
        proof {
            use_type_invariant(self);
        }
        if same_text(name, "mouse") {
            Ok(Device::Mouse(self.mouse_device.clone()))
        } else if same_text(name, "keyboard") {
            Ok(Device::Keyboard(self.keyboard_device.clone()))
        } else if same_text(name, "touch") {
            Ok(Device::Touch(self.touch_device.clone()))
        } else {
            Err(InputError::error(String::from_str("Device not found")))
        }
    }
}

/// Looking up the mouse twice gives two devices that forward to one and
/// the same backend, the session's.
pub proof fn mouse_lookups_share_backend<B>(
    s: Session<B>,
    first: Result<Device<B>, InputError>,
    second: Result<Device<B>, InputError>,
)
    requires
        s.serves("mouse"@, first),
        s.serves("mouse"@, second),
    ensures
        first matches Ok(Device::Mouse(m1)) && second matches Ok(Device::Mouse(m2))
            && m1.handle() == m2.handle() && m1.handle() == s.handle(),
{
    reveal_strlit("mouse");
    reveal_strlit("keyboard");
    reveal_strlit("touch");
    assert("mouse"@.len() != "keyboard"@.len());
    assert("mouse"@[0] != "touch"@[0]);
}

} // verus!
