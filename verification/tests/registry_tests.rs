use toyvpn::addr::Endpoint;
use toyvpn::pool::IpPool;
use toyvpn::registry::ClientManager;

fn ip(a: u8, b: u8, c: u8, d: u8) -> u32 {
    ((a as u32) << 24) | ((b as u32) << 16) | ((c as u32) << 8) | (d as u32)
}

fn manager_10_0_0_1_24() -> ClientManager {
    ClientManager::new(IpPool::new(ip(10, 0, 0, 1), ip(255, 255, 255, 0)))
}

#[test]
fn first_client_gets_10_0_0_2() {
    let mut m = manager_10_0_0_1_24();
    let a = Endpoint { ip: ip(203, 0, 113, 9), port: 4000 };
    assert_eq!(m.register(a), Some(ip(10, 0, 0, 2)));
}

#[test]
fn two_clients_get_disjoint_ips_in_order() {
    let mut m = manager_10_0_0_1_24();
    let a = Endpoint { ip: ip(203, 0, 113, 9), port: 4000 };
    let b = Endpoint { ip: ip(203, 0, 113, 10), port: 5000 };
    assert_eq!(m.register(a), Some(ip(10, 0, 0, 2)));
    assert_eq!(m.register(b), Some(ip(10, 0, 0, 3)));
}

#[test]
fn re_registration_is_idempotent() {
    let mut m = manager_10_0_0_1_24();
    let a = Endpoint { ip: ip(203, 0, 113, 9), port: 4000 };
    let ip1 = m.register(a).unwrap();
    let ip2 = m.register(a).unwrap();
    assert_eq!(ip1, ip2);
    assert_eq!(ip1, ip(10, 0, 0, 2));
    // Still only one registry entry: the next fresh endpoint gets .3.
    let b = Endpoint { ip: ip(203, 0, 113, 9), port: 4001 };
    assert_eq!(m.register(b), Some(ip(10, 0, 0, 3)));
}

#[test]
fn lookups_are_mutual_inverses() {
    let mut m = manager_10_0_0_1_24();
    let a = Endpoint { ip: ip(198, 51, 100, 7), port: 7777 };
    let assigned = m.register(a).unwrap();
    let back = m.get_ip(&a).unwrap();
    assert_eq!(back, assigned);
    assert_eq!(m.get_addr(assigned), Some(a));
}

#[test]
fn unknown_lookups_return_none() {
    let mut m = manager_10_0_0_1_24();
    let a = Endpoint { ip: ip(198, 51, 100, 7), port: 7777 };
    assert_eq!(m.get_ip(&a), None);
    assert_eq!(m.get_addr(ip(10, 0, 0, 2)), None);
    // Same host, different port, is a different endpoint.
    m.register(a).unwrap();
    let other_port = Endpoint { ip: ip(198, 51, 100, 7), port: 7778 };
    assert_eq!(m.get_ip(&other_port), None);
}

#[test]
fn exhausted_pool_registers_nothing() {
    let mut m = ClientManager::new(IpPool::new(ip(10, 0, 0, 1), ip(255, 255, 255, 252)));
    let a = Endpoint { ip: ip(203, 0, 113, 1), port: 1 };
    let b = Endpoint { ip: ip(203, 0, 113, 2), port: 2 };
    assert_eq!(m.register(a), Some(ip(10, 0, 0, 2)));
    assert_eq!(m.register(b), None);
    // The known endpoint still answers; the refused one left no trace.
    assert_eq!(m.register(a), Some(ip(10, 0, 0, 2)));
    assert_eq!(m.get_ip(&b), None);
}
