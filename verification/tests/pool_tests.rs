use toyvpn::pool::IpPool;

fn ip(a: u8, b: u8, c: u8, d: u8) -> u32 {
    ((a as u32) << 24) | ((b as u32) << 16) | ((c as u32) << 8) | (d as u32)
}

#[test]
fn tiny_pool_gives_exactly_one_address() {
    // 10.0.0.1/255.255.255.252: network 10.0.0.0, broadcast 10.0.0.3.
    let mut p = IpPool::new(ip(10, 0, 0, 1), ip(255, 255, 255, 252));
    assert_eq!(p.allocate(), Some(ip(10, 0, 0, 2)));
    assert_eq!(p.allocate(), None);
}

#[test]
fn allocations_are_sequential_and_distinct() {
    let mut p = IpPool::new(ip(10, 0, 0, 1), ip(255, 255, 255, 0));
    let first = p.allocate().unwrap();
    let second = p.allocate().unwrap();
    let third = p.allocate().unwrap();
    assert_eq!(first, ip(10, 0, 0, 2));
    assert_eq!(second, ip(10, 0, 0, 3));
    assert_eq!(third, ip(10, 0, 0, 4));
    assert_ne!(first, second);
    assert_ne!(second, third);
}

#[test]
fn allocations_stay_inside_the_host_range() {
    let mut p = IpPool::new(ip(192, 168, 7, 1), ip(255, 255, 255, 248));
    // Host range is (192.168.7.0, 192.168.7.7) exclusive; .1 is the server.
    let mut seen = Vec::new();
    while let Some(a) = p.allocate() {
        assert!(a > ip(192, 168, 7, 0));
        assert!(a < ip(192, 168, 7, 7));
        assert_ne!(a, ip(192, 168, 7, 1));
        assert!(!seen.contains(&a));
        seen.push(a);
    }
    // .2 .. .6 except nothing else reserved: five addresses.
    assert_eq!(seen.len(), 5);
}

#[test]
fn release_returns_an_address_but_never_the_servers() {
    let mut p = IpPool::new(ip(10, 0, 0, 1), ip(255, 255, 255, 252));
    let a = p.allocate().unwrap();
    assert_eq!(p.allocate(), None);
    p.release(a);
    assert_eq!(p.allocate(), Some(a));
    // Releasing the server address changes nothing.
    p.release(ip(10, 0, 0, 1));
    assert_eq!(p.allocate(), None);
}

#[test]
fn exhausted_pool_recovers_only_on_release() {
    let mut p = IpPool::new(ip(10, 1, 0, 1), ip(255, 255, 255, 248));
    let mut got = Vec::new();
    while let Some(a) = p.allocate() {
        got.push(a);
    }
    assert_eq!(got.len(), 5);
    p.release(got[2]);
    assert_eq!(p.allocate(), Some(got[2]));
    assert_eq!(p.allocate(), None);
}
