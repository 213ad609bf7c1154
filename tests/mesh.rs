use wireguard_configure::address::{Ipv4Address, Ipv4Subnet};
use wireguard_configure::addrport::AddrPort;
use wireguard_configure::configuration::Configuration;
use wireguard_configure::endpoint::{EndPoint, Router};

fn addr(a: u8, b: u8, c: u8, d: u8) -> Ipv4Address {
    Ipv4Address::new(a, b, c, d)
}

fn net(a: u8, b: u8, c: u8, d: u8, len: u8) -> Ipv4Subnet {
    Ipv4Subnet::new(addr(a, b, c, d), len).unwrap()
}

fn client(name: &str, internal: Ipv4Address) -> EndPoint {
    EndPoint::new(name, internal, format!("{}-private", name), format!("{}-public", name))
}

fn router() -> Router {
    Router::new(
        "R",
        addr(10, 0, 0, 1),
        AddrPort::new("vpn.example", 51820),
        "R-private".to_string(),
        "R-public".to_string(),
    )
}

fn texts(ips: &[Ipv4Subnet]) -> Vec<String> {
    ips.iter().map(|n| n.to_string()).collect()
}

#[test]
fn empty_allowed_ips_fall_back_to_host_subnet() {
    let e = client("B", addr(10, 0, 2, 1));
    let ips = e.allowed_ips();
    assert_eq!(ips.len(), 1);
    assert_eq!(ips[0], Ipv4Subnet::host(addr(10, 0, 2, 1)));
    assert_eq!(ips[0].prefix_len(), 32);
    assert_eq!(texts(&ips), vec!["10.0.2.1/32"]);
}

#[test]
fn explicit_allowed_ips_are_kept_in_order() {
    let e = client("A", addr(10, 0, 1, 1))
        .builder_push_allowed_ips(net(10, 0, 1, 0, 24))
        .builder_push_allowed_ips(net(192, 168, 7, 0, 16));
    assert_eq!(texts(&e.allowed_ips()), vec!["10.0.1.0/24", "192.168.7.0/16"]);
}

#[test]
fn removed_client_is_not_found() {
    let mut c = Configuration::new(router());
    c.push_client(client("A", addr(10, 0, 1, 1)));
    c.push_client(client("B", addr(10, 0, 2, 1)));
    assert!(c.client_by_name("A").is_some());
    assert!(c.remove_client_by_name("A"));
    assert!(c.client_by_name("A").is_none());
    assert_eq!(c.clients().len(), 1);
    assert_eq!(c.clients()[0].name(), "B");
}

#[test]
fn removing_unknown_client_changes_nothing() {
    let mut c = Configuration::new(router());
    c.push_client(client("A", addr(10, 0, 1, 1)));
    assert!(!c.remove_client_by_name("Z"));
    assert_eq!(c.clients().len(), 1);
}

#[test]
fn duplicate_names_resolve_to_first_client() {
    let mut c = Configuration::new(router());
    c.push_client(client("A", addr(10, 0, 1, 1)));
    c.push_client(client("A", addr(10, 0, 9, 9)));
    assert_eq!(*c.client_by_name("A").unwrap().internal_address(), addr(10, 0, 1, 1));
    assert!(c.remove_client_by_name("A"));
    assert_eq!(*c.client_by_name("A").unwrap().internal_address(), addr(10, 0, 9, 9));
}

#[test]
fn master_subnet_overrides_clients() {
    let mut c = Configuration::new(router());
    c.set_master_subnet(Some(net(10, 0, 0, 0, 16)));
    assert_eq!(texts(&c.all_allowed_ips()), vec!["10.0.0.0/16"]);
    c.push_client(client("A", addr(10, 0, 1, 1)).builder_push_allowed_ips(net(10, 0, 1, 0, 24)));
    c.push_client(client("B", addr(10, 0, 2, 1)));
    assert_eq!(c.all_allowed_ips(), vec![net(10, 0, 0, 0, 16)]);
    assert_eq!(c.master_subnet(), Some(&net(10, 0, 0, 0, 16)));
}

#[test]
fn client_subnets_are_concatenated_in_order() {
    let mut c = Configuration::new(router());
    c.push_client(client("A", addr(10, 0, 1, 1)).builder_push_allowed_ips(net(10, 0, 1, 0, 24)));
    c.push_client(client("B", addr(10, 0, 2, 1)));
    assert_eq!(texts(&c.all_allowed_ips()), vec!["10.0.1.0/24", "10.0.2.1/32"]);
}

#[test]
fn no_clients_no_master_subnet_gives_no_subnets() {
    let c = Configuration::new(router());
    assert!(c.all_allowed_ips().is_empty());
}

#[test]
fn interface_without_external_address_has_no_listen_port() {
    let e = client("A", addr(10, 0, 1, 1));
    let text = e.interface();
    assert!(!text.contains("ListenPort"));
    assert_eq!(text.lines().count(), 3);
    assert_eq!(text, "[Interface]\n# name: A\nPrivateKey = A-private");
}

#[test]
fn interface_with_external_address_has_listen_port() {
    let e = client("A", addr(10, 0, 1, 1))
        .builder_external_address(Some(AddrPort::new("a.example", 4242)));
    assert_eq!(
        e.interface(),
        "[Interface]\n# name: A\nPrivateKey = A-private\nListenPort = 4242"
    );
}

#[test]
fn peer_block_of_an_endpoint() {
    let mut e = client("A", addr(10, 0, 1, 1));
    assert_eq!(e.peer(), "[Peer]\n# A\nPublicKey = A-public\nAllowedIPs = 10.0.1.1/32");
    e.push_allowed_ip(net(10, 0, 1, 0, 24));
    e.push_allowed_ip(net(10, 1, 0, 0, 16));
    e.set_external_address(Some(AddrPort::new("a.example", 7)));
    assert_eq!(
        e.peer(),
        "[Peer]\n# A\nPublicKey = A-public\nEndpoint = a.example:7\nAllowedIPs = 10.0.1.0/24, 10.1.0.0/16"
    );
}

#[test]
fn client_config_end_to_end() {
    let mut c = Configuration::new(router());
    c.push_client(
        client("A", addr(10, 0, 1, 1))
            .builder_push_allowed_ips(net(10, 0, 1, 0, 24))
            .builder_persistent_keepalive(Some(25)),
    );
    let text = c.client_config("A").unwrap();
    assert_eq!(
        text,
        "[Interface]\n# name: A\nPrivateKey = A-private\n\n\
         [Peer]\n# R\nPublicKey = R-public\nEndpoint = vpn.example:51820\nAllowedIPs = 10.0.1.0/24"
    );
    assert_eq!(c.client_by_name("A").unwrap().persistent_keepalive(), Some(25));
}

#[test]
fn client_config_of_unknown_client_is_none() {
    let c = Configuration::new(router());
    assert!(c.client_config("A").is_none());
}

#[test]
fn router_renders_peer_with_supplied_subnets() {
    let r = router();
    let a = client("A", addr(10, 0, 1, 1));
    let ips = vec![net(10, 0, 0, 0, 16), net(172, 16, 0, 1, 32)];
    assert_eq!(
        r.peer(&a, &ips),
        "[Peer]\n# R\nPublicKey = R-public\nEndpoint = vpn.example:51820\nAllowedIPs = 10.0.0.0/16, 172.16.0.1/32"
    );
    assert_eq!(
        r.interface(),
        "[Interface]\n# name: R\nPrivateKey = R-private\nListenPort = 51820"
    );
    assert_eq!(r.name(), "R");
    assert_eq!(*r.internal_address(), addr(10, 0, 0, 1));
}

#[test]
fn addr_port_text_and_fields() {
    let a = AddrPort::new("vpn.example", 51820);
    assert_eq!(a.to_string(), "vpn.example:51820");
    assert_eq!(a.address(), "vpn.example");
    assert_eq!(a.port(), 51820);
    assert_eq!(AddrPort::new("h", 0).to_string(), "h:0");
}

#[test]
fn subnet_prefix_length_is_bounded() {
    assert!(Ipv4Subnet::new(addr(10, 0, 0, 0), 33).is_none());
    let n = Ipv4Subnet::new(addr(255, 255, 255, 255), 32).unwrap();
    assert_eq!(n.to_string(), "255.255.255.255/32");
    assert_eq!(net(0, 0, 0, 0, 0).to_string(), "0.0.0.0/0");
    assert_eq!(n.addr().octets(), [255, 255, 255, 255]);
}

#[test]
fn endpoint_setters_and_getters() {
    let mut e = client("A", addr(10, 0, 1, 1));
    assert_eq!(e.name(), "A");
    assert_eq!(e.private_key(), "A-private");
    assert_eq!(e.public_key(), "A-public");
    assert!(e.external_address().is_none());
    assert_eq!(e.persistent_keepalive(), None);
    e.set_internal_address(addr(10, 0, 3, 3));
    e.set_persistent_keepalive(Some(15));
    assert_eq!(*e.internal_address(), addr(10, 0, 3, 3));
    assert_eq!(e.persistent_keepalive(), Some(15));
    assert!(e.is_named(&"A".to_string()));
    assert!(!e.is_named(&"B".to_string()));
}
