//! Mesh participants: client endpoints and the router, and the configuration
//! blocks that describe them.

use crate::address::{Ipv4Address, Ipv4Subnet};
use crate::addrport::{host_port, AddrPort};
use crate::text::{decimal, u16_text};
use vstd::prelude::*;
use vstd::string::StringExecFns;

verus! {

/// One participant of the mesh.
#[derive(Clone, Debug)]
pub struct EndPoint {
    name: String,
    private_key: String,
    public_key: String,
    external_address: Option<AddrPort>,
    internal_address: Ipv4Address,
    allowed_ips: Vec<Ipv4Subnet>,
    persistent_keepalive: Option<usize>,
}

/// What an endpoint holds, as mathematical values.
pub struct EndPointView {
    pub name: Seq<char>,
    pub private_key: Seq<char>,
    pub public_key: Seq<char>,
    /// Host and port, where the endpoint is reachable from outside the mesh.
    pub external_address: Option<(Seq<char>, u16)>,
    pub internal_address: Ipv4Address,
    /// The subnets set explicitly, in the order they were added.
    pub allowed_ips: Seq<Ipv4Subnet>,
    pub persistent_keepalive: Option<usize>,
}

pub open spec fn addr_port_view(a: Option<AddrPort>) -> Option<(Seq<char>, u16)> {
    match a {
        Some(a) => Some(a@),
        None => None,
    }
}

impl View for EndPoint {
    type V = EndPointView;

    closed spec fn view(&self) -> EndPointView {
        EndPointView {
            name: self.name@,
            private_key: self.private_key@,
            public_key: self.public_key@,
            external_address: addr_port_view(self.external_address),
            internal_address: self.internal_address,
            allowed_ips: self.allowed_ips@,
            persistent_keepalive: self.persistent_keepalive,
        }
    }
}

impl EndPointView {
    /// The subnets the endpoint may route: those set explicitly, or, where
    /// none is, the single subnet that holds its internal address alone.
    pub open spec fn effective_allowed_ips(self) -> Seq<Ipv4Subnet> {
        if self.allowed_ips.len() > 0 {
            self.allowed_ips
        } else {
            seq![Ipv4Subnet::host_of(self.internal_address)]
        }
    }
}

/// Subnets in CIDR notation, separated by a comma and a space.
pub open spec fn joined(ips: Seq<Ipv4Subnet>) -> Seq<char>
    decreases ips.len(),
{
    if ips.len() == 0 {
        Seq::empty()
    } else if ips.len() == 1 {
        ips[0].text()
    } else {
        joined(ips.drop_last()) + ", "@ + ips.last().text()
    }
}

/// The `[Interface]` block of an endpoint; the `ListenPort` line stands only
/// where the endpoint has an external address.
pub open spec fn interface_text(e: EndPointView) -> Seq<char> {
    let head = "[Interface]\n# name: "@ + e.name + "\nPrivateKey = "@ + e.private_key;
    match e.external_address {
        Some(a) => head + "\nListenPort = "@ + decimal(a.1 as nat),
        None => head,
    }
}

/// The `[Peer]` block that describes an endpoint to another one, with the
/// subnets it routes; the `Endpoint` line stands only where the endpoint has
/// an external address.
pub open spec fn peer_text(e: EndPointView, ips: Seq<Ipv4Subnet>) -> Seq<char> {
    let head = "[Peer]\n# "@ + e.name + "\nPublicKey = "@ + e.public_key;
    let head = match e.external_address {
        Some(a) => head + "\nEndpoint = "@ + host_port(a),
        None => head,
    };
    head + "\nAllowedIPs = "@ + joined(ips)
}

/// The subnets in CIDR notation, separated by a comma and a space.
pub fn join_subnets(ips: &Vec<Ipv4Subnet>) -> (r: String)
    ensures
        r@ == joined(ips@),
{
    let mut s = String::new();
    let mut i: usize = 0;
    while i < ips.len()
        invariant
            i <= ips@.len(),
            s@ == joined(ips@.subrange(0, i as int)),
        decreases ips@.len() - i,
    {
        let t = ips[i].to_string();
        let ghost prefix = ips@.subrange(0, i as int + 1);
        assert(prefix.drop_last() =~= ips@.subrange(0, i as int));
        if i == 0 {
            assert(ips@.subrange(0, 0) =~= Seq::<Ipv4Subnet>::empty());
            assert(s@ =~= Seq::<char>::empty());
            s = t;
        } else {
            s.append(", ");
            s.append(t.as_str());
        }
        i = i + 1;
    }
    assert(ips@.subrange(0, i as int) =~= ips@);
    s
}

/// The `[Peer]` block of `e`, with `ips` as its allowed subnets.
fn render_peer(e: &EndPoint, ips: &Vec<Ipv4Subnet>) -> (r: String)
    ensures
        r@ == peer_text(e@, ips@),
{
    let mut s = String::from_str("[Peer]\n# ");
    s.append(e.name.as_str());
    s.append("\nPublicKey = ");
    s.append(e.public_key.as_str());
    match &e.external_address {
        Some(a) => {
            s.append("\nEndpoint = ");
            let t = a.to_string();
            s.append(t.as_str());
        },
        None => {},
    }
    s.append("\nAllowedIPs = ");
    let t = join_subnets(ips);
    s.append(t.as_str());
    s
}

impl EndPoint {
    /// A new endpoint with the given keypair and no external address,
    /// explicit subnets or keepalive.
    pub fn new(name: &str, internal_address: Ipv4Address, private_key: String, public_key: String) -> (r: EndPoint)
        ensures
            r@ == (EndPointView {
                name: name@,
                private_key: private_key@,
                public_key: public_key@,
                external_address: None,
                internal_address,
                allowed_ips: Seq::empty(),
                persistent_keepalive: None,
            }),
    {
        EndPoint {
            name: String::from_str(name),
            private_key,
            public_key,
            external_address: None,
            internal_address,
            allowed_ips: Vec::new(),
            persistent_keepalive: None,
        }
    }

    /// The subnets the endpoint may route (see `effective_allowed_ips`).
    pub fn allowed_ips(&self) -> (r: Vec<Ipv4Subnet>)
        ensures
            r@ == self@.effective_allowed_ips(),
            self@.allowed_ips.len() == 0 ==> r@ == seq![Ipv4Subnet::host_of(self@.internal_address)],
            self@.allowed_ips.len() > 0 ==> r@ == self@.allowed_ips,
    {
        if self.allowed_ips.len() > 0 {
            let mut r: Vec<Ipv4Subnet> = Vec::new();
            let mut i: usize = 0;
            while i < self.allowed_ips.len()
                invariant
                    i <= self.allowed_ips@.len(),
                    r@ == self.allowed_ips@.subrange(0, i as int),
                decreases self.allowed_ips@.len() - i,
            {
                r.push(self.allowed_ips[i]);
                assert(r@ =~= self.allowed_ips@.subrange(0, i as int + 1));
                i = i + 1;
            }
            assert(r@ =~= self.allowed_ips@);
            r
        } else {
            let mut r: Vec<Ipv4Subnet> = Vec::new();
            r.push(Ipv4Subnet::host(self.internal_address));
            assert(r@ =~= seq![Ipv4Subnet::host_of(self.internal_address)]);
            r
        }
    }

    /// The `[Interface]` block of this endpoint.
    pub fn interface(&self) -> (r: String)
        ensures
            r@ == interface_text(self@),
    {
        let mut s = String::from_str("[Interface]\n# name: ");
        s.append(self.name.as_str());
        s.append("\nPrivateKey = ");
        s.append(self.private_key.as_str());
        match &self.external_address {
            Some(a) => {
                s.append("\nListenPort = ");
                let t = u16_text(a.port());
                s.append(t.as_str());
            },
            None => {},
        }
        s
    }

    /// The `[Peer]` block that describes this endpoint, with its own subnets.
    pub fn peer(&self) -> (r: String)
        ensures
            r@ == peer_text(self@, self@.effective_allowed_ips()),
    {
        let ips = self.allowed_ips();
        render_peer(self, &ips)
    }
}

} // verus!

verus! {

/// The hub of the mesh: an endpoint that also describes itself to each client.
#[derive(Clone, Debug)]
pub struct Router {
    endpoint: EndPoint,
}

impl View for Router {
    type V = EndPointView;

    closed spec fn view(&self) -> EndPointView {
        self.endpoint@
    }
}

impl Router {
    /// A router reachable at `external_address`, with the given keypair.
    pub fn new(
        name: &str,
        internal_address: Ipv4Address,
        external_address: AddrPort,
        private_key: String,
        public_key: String,
    ) -> (r: Router)
        ensures
            r@ == (EndPointView {
                name: name@,
                private_key: private_key@,
                public_key: public_key@,
                external_address: Some(external_address@),
                internal_address,
                allowed_ips: Seq::empty(),
                persistent_keepalive: None,
            }),
    {
        let endpoint = EndPoint::new(name, internal_address, private_key, public_key);
        Router { endpoint: endpoint.builder_external_address(Some(external_address)) }
    }

    /// A router made of an endpoint as it stands.
    pub fn from_endpoint(endpoint: EndPoint) -> (r: Router)
        ensures
            r@ == endpoint@,
    {
        Router { endpoint }
    }

    pub fn endpoint(&self) -> (r: &EndPoint)
        ensures
            r@ == self@,
    {
        &self.endpoint
    }

    pub fn name(&self) -> (r: &str)
        ensures
            r@ == self@.name,
    {
        self.endpoint.name()
    }

    pub fn internal_address(&self) -> (r: &Ipv4Address)
        ensures
            *r == self@.internal_address,
    {
        self.endpoint.internal_address()
    }

    /// The router's own `[Interface]` block.
    pub fn interface(&self) -> (r: String)
        ensures
            r@ == interface_text(self@),
    {
        self.endpoint.interface()
    }

    /// The `[Peer]` block that describes the router to `client`. The block
    /// carries the router's identity and address, with `allowed_ips`, which
    /// the caller resolves for the whole mesh, in place of the router's own
    /// subnets; `client` itself is left as it is.
    pub fn peer(&self, client: &EndPoint, allowed_ips: &Vec<Ipv4Subnet>) -> (r: String)
        ensures
            r@ == peer_text(self@, allowed_ips@),
    {
        render_peer(&self.endpoint, allowed_ips)
    }
}

impl EndPoint {
    pub fn builder_external_address(self, external_address: Option<AddrPort>) -> (r: EndPoint)
        ensures
            r@ == (EndPointView { external_address: addr_port_view(external_address), ..self@ }),
    {
        let mut e = self;
        e.external_address = external_address;
        e
    }

    pub fn builder_push_allowed_ips(self, allowed_ip: Ipv4Subnet) -> (r: EndPoint)
        ensures
            r@ == (EndPointView { allowed_ips: self@.allowed_ips.push(allowed_ip), ..self@ }),
    {
        let mut e = self;
        e.allowed_ips.push(allowed_ip);
        e
    }

    pub fn builder_persistent_keepalive(self, keepalive: Option<usize>) -> (r: EndPoint)
        ensures
            r@ == (EndPointView { persistent_keepalive: keepalive, ..self@ }),
    {
        let mut e = self;
        e.persistent_keepalive = keepalive;
        e
    }

    pub fn set_external_address(&mut self, external_address: Option<AddrPort>)
        ensures
            final(self)@ == (EndPointView {
                external_address: addr_port_view(external_address),
                ..old(self)@
            }),
    {
        self.external_address = external_address;
    }

    pub fn set_internal_address(&mut self, internal_address: Ipv4Address)
        ensures
            final(self)@ == (EndPointView { internal_address, ..old(self)@ }),
    {
        self.internal_address = internal_address;
    }

    pub fn push_allowed_ip(&mut self, allowed_ip: Ipv4Subnet)
        ensures
            final(self)@ == (EndPointView {
                allowed_ips: old(self)@.allowed_ips.push(allowed_ip),
                ..old(self)@
            }),
    {
        self.allowed_ips.push(allowed_ip);
    }

    pub fn set_persistent_keepalive(&mut self, keepalive: Option<usize>)
        ensures
            final(self)@ == (EndPointView { persistent_keepalive: keepalive, ..old(self)@ }),
    {
        self.persistent_keepalive = keepalive;
    }

    pub fn name(&self) -> (r: &str)
        ensures
            r@ == self@.name,
    {
        self.name.as_str()
    }

    /// Whether the endpoint is named `key`.
    pub fn is_named(&self, key: &String) -> (r: bool)
        ensures
            r == (self@.name == key@),
    {
        self.name.eq(key)
    }

    pub fn private_key(&self) -> (r: &str)
        ensures
            r@ == self@.private_key,
    {
        self.private_key.as_str()
    }

    pub fn public_key(&self) -> (r: &str)
        ensures
            r@ == self@.public_key,
    {
        self.public_key.as_str()
    }

    pub fn external_address(&self) -> (r: Option<&AddrPort>)
        ensures
            match r {
                Some(a) => self@.external_address == Some(a@),
                None => self@.external_address is None,
            },
    {
        self.external_address.as_ref()
    }

    pub fn internal_address(&self) -> (r: &Ipv4Address)
        ensures
            *r == self@.internal_address,
    {
        &self.internal_address
    }

    /// The subnets set explicitly, without the fallback of `allowed_ips`.
    pub fn explicit_allowed_ips(&self) -> (r: &[Ipv4Subnet])
        ensures
            r@ == self@.allowed_ips,
    {
        self.allowed_ips.as_slice()
    }

    pub fn persistent_keepalive(&self) -> (r: Option<usize>)
        ensures
            r == self@.persistent_keepalive,
    {
        self.persistent_keepalive
    }
}

} // verus!
