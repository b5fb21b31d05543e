//! The greeter's control service: the calls it takes, handed to whatever
//! stands behind it.
use vstd::prelude::*;

verus! {

/// What stands behind the control service and carries its calls out.
pub trait GreeterServiceBackend: Send + Sync {
    /// Sets where the wallpaper comes from: an address or a file.
    fn set_wallpaper_source(&self, url: String);

    /// Sets the address that is asked for the start time.
    fn set_api_poller_url(&self, url: String);

    /// Logs in with the configured credentials.
    fn login(&self);
}

/// The control service over a backend.
pub struct GreeterService<B: 'static> {
    backend: B,
}

impl<B> GreeterService<B> {
    /// The backend that carries the calls out.
    pub closed spec fn backend(&self) -> B {
        self.backend
    }

    /// A service over `backend`.
    pub fn new(backend: B) -> (r: Self)
        ensures
            r.backend() == backend,
    {
        Self { backend }
    }
}

impl<B> GreeterService<B> {
    /// The backend, to hand a call to.
    pub fn get_backend(&self) -> (r: &B)
        ensures
            *r == self.backend(),
    {
        &self.backend
    }
}

} // verus!
