//! The session-lease mechanism: the session manager hands out a lease that blocks sleep
//! for as long as it is held.

use vstd::prelude::*;
use crate::inhibitor::{Bus, Inhibitor};

verus! {

/// Bookkeeping of the session-lease mechanism. `F` is the lease; to release it is to
/// drop it.
pub struct LogindInhibit<F> {
    conn: Bus,
    fd: Option<F>,
}

impl<F> LogindInhibit<F> {
    /// The bus on which the session manager is reached.
    pub closed spec fn spec_bus(&self) -> Bus {
        self.conn
    }

    /// An inhibitor at rest that reaches the session manager on `conn`.
    pub fn new(conn: Bus) -> (inhibitor: Self)
        ensures
            inhibitor.handle() is None,
            inhibitor.spec_bus() == conn,
    {
        Self { conn, fd: None }
    }

    /// The bus on which the session manager is reached.
    pub fn bus(&self) -> (bus: Bus)
        ensures
            bus == self.spec_bus(),
    {
        self.conn
    }
}

impl<F> Inhibitor for LogindInhibit<F> {
    type Handle = F;

    closed spec fn handle(&self) -> Option<F> {
        self.fd
    }

    fn inhibit(&self) -> (acquire: bool) {
        self.fd.is_none()
    }

    fn acquired(&mut self, handle: F) -> (surplus: Option<F>)
        ensures
            final(self).spec_bus() == old(self).spec_bus(),
    {
        if self.fd.is_some() {
            Some(handle)
        } else {
            self.fd = Some(handle);
            None
        }
    }

    fn uninhibit(&mut self) -> (released: Option<F>)
        ensures
            final(self).spec_bus() == old(self).spec_bus(),
    {
        self.fd.take()
    }
}

} // verus!
