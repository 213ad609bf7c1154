//! IPv4 addresses and subnets, held as plain octets.

use crate::text::decimal;
use vstd::prelude::*;

verus! {

/// An IPv4 address `a.b.c.d`, as its four octets in network order.
#[derive(Clone, Copy, Debug, PartialEq, Eq, Structural)]
pub struct Ipv4Address {
    pub a: u8,
    pub b: u8,
    pub c: u8,
    pub d: u8,
}

/// The dotted-quad notation of an address: `a.b.c.d`.
pub open spec fn dotted_quad(a: Ipv4Address) -> Seq<char> {
    decimal(a.a as nat) + "."@ + decimal(a.b as nat) + "."@ + decimal(a.c as nat) + "."@
        + decimal(a.d as nat)
}

/// The CIDR notation of an address and a prefix length: `a.b.c.d/len`.
pub open spec fn cidr(addr: Ipv4Address, prefix_len: u8) -> Seq<char> {
    dotted_quad(addr) + "/"@ + decimal(prefix_len as nat)
}

impl Ipv4Address {
    pub fn new(a: u8, b: u8, c: u8, d: u8) -> (r: Ipv4Address)
        ensures
            r == (Ipv4Address { a, b, c, d }),
    {
        Ipv4Address { a, b, c, d }
    }

    pub fn octets(&self) -> (r: [u8; 4])
        ensures
            r@ == seq![self.a, self.b, self.c, self.d],
    {
        [self.a, self.b, self.c, self.d]
    }
}

/// An IPv4 subnet: an address and a prefix length of at most 32. The host
/// bits of the address are kept as given.
#[derive(Clone, Copy, Debug, PartialEq, Eq, Structural)]
pub struct Ipv4Subnet {
    addr: Ipv4Address,
    prefix_len: u8,
}

impl Ipv4Subnet {
    #[verifier::type_invariant]
    spec fn prefix_in_range(self) -> bool {
        self.prefix_len <= 32
    }

    pub closed spec fn spec_addr(self) -> Ipv4Address {
        self.addr
    }

    pub closed spec fn spec_prefix_len(self) -> u8 {
        self.prefix_len
    }

    /// The subnet `addr/32`, which holds `addr` alone.
    pub closed spec fn host_of(addr: Ipv4Address) -> Ipv4Subnet {
        Ipv4Subnet { addr, prefix_len: 32 }
    }

    pub proof fn lemma_host_of(addr: Ipv4Address)
        ensures
            Self::host_of(addr).spec_addr() == addr,
            Self::host_of(addr).spec_prefix_len() == 32,
    {
    }

    /// The subnet in CIDR notation.
    pub open spec fn text(self) -> Seq<char> {
        cidr(self.spec_addr(), self.spec_prefix_len())
    }

    /// The subnet of `addr` with `prefix_len` leading bits; `None` where
    /// `prefix_len` exceeds 32.
    pub fn new(addr: Ipv4Address, prefix_len: u8) -> (r: Option<Ipv4Subnet>)
        ensures
            r.is_some() <==> prefix_len <= 32,
            r matches Some(s) ==> s.spec_addr() == addr && s.spec_prefix_len() == prefix_len,
    {
        if prefix_len <= 32 {
            Some(Ipv4Subnet { addr, prefix_len })
        } else {
            None
        }
    }

    /// The subnet that holds `addr` alone.
    pub fn host(addr: Ipv4Address) -> (r: Ipv4Subnet)
        ensures
            r == Self::host_of(addr),
            r.spec_addr() == addr,
            r.spec_prefix_len() == 32,
    {
        Ipv4Subnet { addr, prefix_len: 32 }
    }

    pub fn addr(&self) -> (r: Ipv4Address)
        ensures
            r == self.spec_addr(),
    {
        self.addr
    }

    pub fn prefix_len(&self) -> (r: u8)
        ensures
            r == self.spec_prefix_len(),
            r <= 32,
    {
        proof {
            use_type_invariant(self);
        }
        self.prefix_len
    }

    /// The subnet in CIDR notation, as configuration files write it.
    pub fn to_string(&self) -> (r: String)
        ensures
            r@ == self.text(),
    {
        proof {
            use_type_invariant(self);
        }
        net_text(self.addr, self.prefix_len)
    }
}

/// Relies on `ipnet::Ipv4Net::new`, which accepts any prefix length up to 32,
/// and on its `Display`, which writes the address as std's `Ipv4Addr` does
/// (dotted quad in decimal), a slash, and the prefix length in decimal.
#[verifier::external_body]
fn net_text(addr: Ipv4Address, prefix_len: u8) -> (r: String)
    requires
        prefix_len <= 32,
    ensures
        r@ == cidr(addr, prefix_len),
{
    let octets: [u8; 4] = [addr.a, addr.b, addr.c, addr.d];
    match ipnet::Ipv4Net::new(octets.into(), prefix_len) {
        Ok(net) => net.to_string(),
        Err(_) => String::new(),
    }
}

} // verus!
