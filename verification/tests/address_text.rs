use nakamoto_p2p::net::{Link, SocketAddr};

fn v4(a: u8, b: u8, c: u8, d: u8, port: u16) -> SocketAddr {
    SocketAddr::V4 { ip: u32::from_be_bytes([a, b, c, d]), port }
}

fn v6(segments: [u16; 8], port: u16) -> SocketAddr {
    let mut ip: u128 = 0;
    for segment in segments {
        ip = (ip << 16) | segment as u128;
    }
    SocketAddr::V6 { ip, port, flowinfo: 0, scope_id: 0 }
}

#[test]
fn test_ipv4_text() {
    assert_eq!(v4(127, 0, 0, 1, 8333).to_string(), "127.0.0.1:8333");
    assert_eq!(v4(0, 0, 0, 0, 0).to_string(), "0.0.0.0:0");
    assert_eq!(v4(255, 255, 255, 255, 65535).to_string(), "255.255.255.255:65535");
    assert_eq!(v4(10, 200, 3, 40, 18444).to_string(), "10.200.3.40:18444");
}

#[test]
fn test_ipv6_text() {
    assert_eq!(v6([0, 0, 0, 0, 0, 0, 0, 1], 8333).to_string(), "[::1]:8333");
    assert_eq!(v6([0, 0, 0, 0, 0, 0, 0, 0], 1).to_string(), "[::]:1");
    assert_eq!(
        v6([0x2001, 0xdb8, 0, 0, 0, 0, 0, 0x1], 80).to_string(),
        "[2001:db8::1]:80"
    );
    assert_eq!(
        v6([0x2001, 0xdb8, 0x85a3, 0, 0, 0x8a2e, 0x370, 0x7334], 443).to_string(),
        "[2001:db8:85a3::8a2e:370:7334]:443"
    );
    assert_eq!(
        v6([1, 2, 3, 4, 5, 6, 7, 8], 9).to_string(),
        "[1:2:3:4:5:6:7:8]:9"
    );
    assert_eq!(v6([0xfe80, 0, 0, 0, 0, 0, 0, 0], 9).to_string(), "[fe80::]:9");
}

#[test]
fn test_ipv6_text_shortens_the_first_longest_run_only() {
    // A single zero segment is not shortened.
    assert_eq!(v6([1, 0, 2, 3, 4, 5, 6, 7], 9).to_string(), "[1:0:2:3:4:5:6:7]:9");
    // Of two runs of the same length, the first is shortened.
    assert_eq!(v6([1, 0, 0, 2, 3, 0, 0, 4], 9).to_string(), "[1::2:3:0:0:4]:9");
    // The longer run is shortened, wherever it is.
    assert_eq!(v6([1, 0, 0, 2, 0, 0, 0, 4], 9).to_string(), "[1:0:0:2::4]:9");
    assert_eq!(v6([0, 0, 1, 0, 0, 0, 0, 0], 9).to_string(), "[0:0:1::]:9");
    assert_eq!(v6([0, 0, 0, 1, 0, 0, 2, 0], 9).to_string(), "[::1:0:0:2:0]:9");
}

#[test]
fn test_ipv6_text_of_mapped_ipv4() {
    assert_eq!(
        v6([0, 0, 0, 0, 0, 0xffff, 0xc000, 0x0280], 8333).to_string(),
        "[::ffff:192.0.2.128]:8333"
    );
    // Not mapped: the sixth segment is not ffff.
    assert_eq!(
        v6([0, 0, 0, 0, 0, 0xfffe, 0xc000, 0x0280], 8333).to_string(),
        "[::fffe:c000:280]:8333"
    );
}

#[test]
fn test_ipv6_text_with_scope() {
    let scoped = SocketAddr::V6 { ip: 0xfe80 << 112 | 1, port: 8333, flowinfo: 5, scope_id: 3 };
    assert_eq!(scoped.to_string(), "[fe80::1%3]:8333");
    let unscoped = SocketAddr::V6 { ip: 0xfe80 << 112 | 1, port: 8333, flowinfo: 5, scope_id: 0 };
    assert_eq!(unscoped.to_string(), "[fe80::1]:8333");
}

#[test]
fn test_address_order() {
    let a = v4(9, 9, 9, 9, 1);
    let b = v4(9, 9, 9, 9, 2);
    let c = v4(10, 0, 0, 0, 0);
    let d = v6([0; 8], 0);
    let e = SocketAddr::V6 { ip: 0, port: 0, flowinfo: 0, scope_id: 1 };
    let f = SocketAddr::V6 { ip: 0, port: 0, flowinfo: 1, scope_id: 0 };
    let g = v6([0, 0, 0, 0, 0, 0, 0, 1], 0);
    let ordered = [a, b, c, d, e, f, g];
    for i in 0..ordered.len() {
        for j in 0..ordered.len() {
            assert_eq!(ordered[i].precedes(&ordered[j]), i < j);
            assert_eq!(ordered[i] == ordered[j], i == j);
            assert_eq!(ordered[i] < ordered[j], i < j);
        }
    }
}

#[test]
fn test_link_as_a_word() {
    assert_eq!(Link::Inbound.as_str(), "Inbound");
    assert_eq!(Link::Outbound.as_str(), "Outbound");
}
