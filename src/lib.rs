//! Synthesised keyboard and mouse input behind a uniform handler interface.
//!
//! The library holds the device vocabulary, the error type, the device
//! façades and the session that shares one backend between them, and the
//! composite operations (tap, click, hold, drag) as state machines whose
//! sequencing and cleanup rules are proved. A backend that talks to the
//! operating system performs the primitive actions the machines ask for.
pub mod handler;
pub mod keyboard;
pub mod mouse;
pub mod result;
pub mod session;
pub mod stroke;
pub mod text;
pub mod touch;
