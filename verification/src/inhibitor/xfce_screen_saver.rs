//! The desktop-cookie mechanism of the desktop's screen saver service: the service hands
//! out a cookie, and the inhibition lasts until the cookie is returned.

use vstd::prelude::*;
use crate::inhibitor::{Bus, Inhibitor};

verus! {

/// Bookkeeping of the cookie of the screen saver service. A cookie is never dropped:
/// it leaves only through `uninhibit`, to be returned to the service.
pub struct XfceScreenSaver {
    conn: Bus,
    cookie: Option<u32>,
}

impl XfceScreenSaver {
    /// The bus on which the service is reached.
    pub closed spec fn spec_bus(&self) -> Bus {
        self.conn
    }

    /// An inhibitor at rest that reaches the service on `conn`.
    pub fn new(conn: Bus) -> (inhibitor: Self)
        ensures
            inhibitor.handle() is None,
            inhibitor.spec_bus() == conn,
    {
        Self { conn, cookie: None }
    }

    /// The bus on which the service is reached.
    pub fn bus(&self) -> (bus: Bus)
        ensures
            bus == self.spec_bus(),
    {
        self.conn
    }
}

impl Inhibitor for XfceScreenSaver {
    type Handle = u32;

    closed spec fn handle(&self) -> Option<u32> {
        self.cookie
    }

    fn inhibit(&self) -> (acquire: bool) {
        self.cookie.is_none()
    }

    fn acquired(&mut self, handle: u32) -> (surplus: Option<u32>)
        ensures
            final(self).spec_bus() == old(self).spec_bus(),
    {
        if self.cookie.is_some() {
            Some(handle)
        } else {
            self.cookie = Some(handle);
            None
        }
    }

    fn uninhibit(&mut self) -> (released: Option<u32>)
        ensures
            final(self).spec_bus() == old(self).spec_bus(),
    {
        self.cookie.take()
    }
}

} // verus!
