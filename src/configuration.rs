//! The mesh as a whole: its router, its clients, and an optional master
//! subnet that all of them route.

use crate::address::Ipv4Subnet;
use crate::endpoint::{interface_text, peer_text, EndPoint, EndPointView, Router};
use vstd::prelude::*;
use vstd::string::StringExecFns;

verus! {

/// A mesh. Client names are meant to be unique, but adding a client does not
/// check it: a lookup by name finds the first client that has the name.
#[derive(Clone, Debug)]
pub struct Configuration {
    master_subnet: Option<Ipv4Subnet>,
    router: Router,
    clients: Vec<EndPoint>,
}

pub struct ConfigurationView {
    pub master_subnet: Option<Ipv4Subnet>,
    pub router: EndPointView,
    /// The clients, in the order they were added.
    pub clients: Seq<EndPointView>,
}

pub open spec fn views_of(clients: Seq<EndPoint>) -> Seq<EndPointView> {
    clients.map_values(|e: EndPoint| e@)
}

impl View for Configuration {
    type V = ConfigurationView;

    closed spec fn view(&self) -> ConfigurationView {
        ConfigurationView {
            master_subnet: self.master_subnet,
            router: self.router@,
            clients: views_of(self.clients@),
        }
    }
}

/// Some client is named `name`.
pub open spec fn has_name(clients: Seq<EndPointView>, name: Seq<char>) -> bool {
    exists|i: int| 0 <= i < clients.len() && #[trigger] clients[i].name == name
}

/// `i` is the first position of a client named `name`.
pub open spec fn is_first_named(clients: Seq<EndPointView>, name: Seq<char>, i: int) -> bool {
    &&& 0 <= i < clients.len()
    &&& clients[i].name == name
    &&& forall|j: int| 0 <= j < i ==> #[trigger] clients[j].name != name
}

/// The first position of a client named `name`, where there is one.
pub open spec fn first_named(clients: Seq<EndPointView>, name: Seq<char>) -> int {
    choose|i: int| is_first_named(clients, name, i)
}

/// The mesh without its first client named `name`; unchanged where no client
/// has that name.
pub open spec fn removed_by_name(c: ConfigurationView, name: Seq<char>) -> ConfigurationView {
    if has_name(c.clients, name) {
        ConfigurationView { clients: c.clients.remove(first_named(c.clients, name)), ..c }
    } else {
        c
    }
}

/// The subnets of all clients (see `effective_allowed_ips`), client after
/// client in the order of `clients`.
pub open spec fn all_clients_ips(clients: Seq<EndPointView>) -> Seq<Ipv4Subnet>
    decreases clients.len(),
{
    if clients.len() == 0 {
        Seq::empty()
    } else {
        all_clients_ips(clients.drop_last()) + clients.last().effective_allowed_ips()
    }
}

/// The subnets routed through the mesh: the master subnet alone where there
/// is one, else those of all clients.
pub open spec fn resolved_allowed_ips(c: ConfigurationView) -> Seq<Ipv4Subnet> {
    match c.master_subnet {
        Some(m) => seq![m],
        None => all_clients_ips(c.clients),
    }
}

/// The configuration of `client` in mesh `c`: its interface block, a blank
/// line, and the block that describes the router to it.
pub open spec fn client_config_text(c: ConfigurationView, client: EndPointView) -> Seq<char> {
    interface_text(client) + "\n\n"@ + peer_text(c.router, resolved_allowed_ips(c))
}

proof fn lemma_first_named_unique(clients: Seq<EndPointView>, name: Seq<char>, i: int)
    requires
        is_first_named(clients, name, i),
    ensures
        has_name(clients, name),
        first_named(clients, name) == i,
{
    let k = first_named(clients, name);
    assert(is_first_named(clients, name, k));
    if k < i {
        assert(clients[k].name == name);
    } else if i < k {
        assert(clients[i].name == name);
    }
}

/// Once the only client named `name` is removed, no client has that name.
pub proof fn lemma_removed_name_is_absent(c: ConfigurationView, name: Seq<char>, i: int)
    requires
        0 <= i < c.clients.len(),
        c.clients[i].name == name,
        forall|j: int| 0 <= j < c.clients.len() && j != i ==> #[trigger] c.clients[j].name != name,
    ensures
        !has_name(removed_by_name(c, name).clients, name),
{
    assert(is_first_named(c.clients, name, i));
    lemma_first_named_unique(c.clients, name, i);
    let rest = c.clients.remove(i);
    assert forall|j: int| 0 <= j < rest.len() implies #[trigger] rest[j].name != name by {
        if j < i {
            assert(rest[j] == c.clients[j]);
        } else {
            assert(rest[j] == c.clients[j + 1]);
        }
    }
}

impl Configuration {
    /// A mesh around `router`, with no clients and no master subnet.
    pub fn new(router: Router) -> (r: Configuration)
        ensures
            r@ == (ConfigurationView {
                master_subnet: None,
                router: router@,
                clients: Seq::empty(),
            }),
    {
        let r = Configuration { master_subnet: None, router, clients: Vec::new() };
        assert(r@.clients =~= Seq::empty());
        r
    }

    /// Appends `client`, whatever its name.
    pub fn push_client(&mut self, client: EndPoint)
        ensures
            final(self)@ == (ConfigurationView {
                clients: old(self)@.clients.push(client@),
                ..old(self)@
            }),
    {
        self.clients.push(client);
        assert(self@.clients =~= old(self)@.clients.push(client@));
    }

    pub fn set_master_subnet(&mut self, master_subnet: Option<Ipv4Subnet>)
        ensures
            final(self)@ == (ConfigurationView { master_subnet, ..old(self)@ }),
    {
        self.master_subnet = master_subnet;
    }

    /// The position of the first client named `name`.
    fn position_of(&self, name: &str) -> (r: Option<usize>)
        ensures
            r is None <==> !has_name(self@.clients, name@),
            r matches Some(i) ==> is_first_named(self@.clients, name@, i as int),
    {
        let key = String::from_str(name);
        let mut i: usize = 0;
        while i < self.clients.len()
            invariant
                i <= self.clients@.len(),
                key@ == name@,
                forall|j: int| 0 <= j < i ==> #[trigger] self@.clients[j].name != name@,
            decreases self.clients@.len() - i,
        {
            if self.clients[i].is_named(&key) {
                assert(self@.clients[i as int].name == name@);
                return Some(i);
            }
            i = i + 1;
        }
        None
    }

    /// Removes the first client named `name`; tells whether there was one.
    pub fn remove_client_by_name(&mut self, name: &str) -> (r: bool)
        ensures
            r == has_name(old(self)@.clients, name@),
            final(self)@ == removed_by_name(old(self)@, name@),
    {
        match self.position_of(name) {
            Some(i) => {
                proof {
                    lemma_first_named_unique(self@.clients, name@, i as int);
                }
                self.clients.remove(i);
                assert(self@.clients =~= old(self)@.clients.remove(i as int));
                true
            },
            None => false,
        }
    }

    pub fn master_subnet(&self) -> (r: Option<&Ipv4Subnet>)
        ensures
            match r {
                Some(m) => self@.master_subnet == Some(*m),
                None => self@.master_subnet is None,
            },
    {
        self.master_subnet.as_ref()
    }

    pub fn router(&self) -> (r: &Router)
        ensures
            r@ == self@.router,
    {
        &self.router
    }

    pub fn clients(&self) -> (r: &[EndPoint])
        ensures
            views_of(r@) == self@.clients,
    {
        self.clients.as_slice()
    }

    /// The first client named `name`, if any.
    pub fn client_by_name(&self, name: &str) -> (r: Option<&EndPoint>)
        ensures
            r is None <==> !has_name(self@.clients, name@),
            r matches Some(e) ==> e@ == self@.clients[first_named(self@.clients, name@)],
    {
        match self.position_of(name) {
            Some(i) => {
                proof {
                    lemma_first_named_unique(self@.clients, name@, i as int);
                }
                Some(&self.clients[i])
            },
            None => None,
        }
    }

    /// The subnets routed through the mesh (see `resolved_allowed_ips`).
    pub fn all_allowed_ips(&self) -> (r: Vec<Ipv4Subnet>)
        ensures
            r@ == resolved_allowed_ips(self@),
    {
        match &self.master_subnet {
            Some(m) => {
                let mut r: Vec<Ipv4Subnet> = Vec::new();
                r.push(*m);
                assert(r@ =~= seq![*m]);
                r
            },
            None => {
                let mut r: Vec<Ipv4Subnet> = Vec::new();
                let mut i: usize = 0;
                while i < self.clients.len()
                    invariant
                        i <= self.clients@.len(),
                        r@ == all_clients_ips(self@.clients.subrange(0, i as int)),
                    decreases self.clients@.len() - i,
                {
                    let mut ips = self.clients[i].allowed_ips();
                    r.append(&mut ips);
                    assert(self@.clients.subrange(0, i as int + 1).drop_last()
                        =~= self@.clients.subrange(0, i as int));
                    i = i + 1;
                }
                assert(self@.clients.subrange(0, i as int) =~= self@.clients);
                r
            },
        }
    }

    /// The configuration of the first client named `name`; `None` where no
    /// client has that name.
    pub fn client_config(&self, name: &str) -> (r: Option<String>)
        ensures
            r is None <==> !has_name(self@.clients, name@),
            r matches Some(s) ==> s@ == client_config_text(
                self@,
                self@.clients[first_named(self@.clients, name@)],
            ),
    {
        let client = match self.client_by_name(name) {
            Some(c) => c,
            None => {
                return None;
            },
        };
        let mut s = client.interface();
        s.append("\n\n");
        let ips = self.all_allowed_ips();
        let peer = self.router.peer(client, &ips);
        s.append(peer.as_str());
        Some(s)
    }
}

} // verus!
