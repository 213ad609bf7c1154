//! A host and a port at which an endpoint can be reached from outside the mesh.

use crate::text::{decimal, u16_text};
use vstd::prelude::*;
use vstd::string::StringExecFns;

verus! {

#[derive(Clone, Debug)]
pub struct AddrPort {
    address: String,
    port: u16,
}

impl View for AddrPort {
    /// The host and the port.
    type V = (Seq<char>, u16);

    closed spec fn view(&self) -> (Seq<char>, u16) {
        (self.address@, self.port)
    }
}

/// The `host:port` notation of a host and a port.
pub open spec fn host_port(a: (Seq<char>, u16)) -> Seq<char> {
    a.0 + ":"@ + decimal(a.1 as nat)
}

impl AddrPort {
    pub fn new(address: &str, port: u16) -> (r: AddrPort)
        ensures
            r@ == (address@, port),
    {
        AddrPort { address: String::from_str(address), port }
    }

    pub fn address(&self) -> (r: &str)
        ensures
            r@ == self@.0,
    {
        self.address.as_str()
    }

    pub fn port(&self) -> (r: u16)
        ensures
            r == self@.1,
    {
        self.port
    }

    /// The endpoint as `host:port`.
    pub fn to_string(&self) -> (r: String)
        ensures
            r@ == host_port(self@),
    {
        let mut s = self.address.clone();
        s.append(":");
        let p = u16_text(self.port);
        s.append(p.as_str());
        s
    }
}

} // verus!
