use vstd::prelude::*;

use std::sync::Arc;

verus! {

/// Touch input; no operations are defined yet.
pub trait TouchHandler {}

/// A shareable touch device that holds one backend.
pub struct TouchDevice<H> {
    backend: Arc<H>,
}

impl<H> TouchDevice<H> {
    /// The backend this device forwards to.
    pub closed spec fn handle(&self) -> Arc<H> {
        self.backend
    }

    pub fn new(backend: Arc<H>) -> (r: Self)
        ensures
            r.handle() == backend,
    {
        TouchDevice { backend }
    }
}

impl<H> Clone for TouchDevice<H> {
    /// Another handle on the same backend.
    fn clone(&self) -> (r: Self)
        ensures
            r.handle() == self.handle(),
    {
        TouchDevice { backend: Arc::clone(&self.backend) }
    }
}

impl<H: TouchHandler> TouchHandler for TouchDevice<H> {}

} // verus!
