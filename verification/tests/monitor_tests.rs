use rusty_tcp::monitor::FrameReport;
use rusty_tcp::monitor::classify_tun_frame;
use rusty_tcp::monitor::should_shut_down;

/// A minimal valid IPv4 header (20 bytes, no options).
fn ipv4_header(total_len: u16) -> Vec<u8> {
    let mut h = vec![0u8; 20];
    h[0] = 0x45; // version 4, ihl 5
    h[2..4].copy_from_slice(&total_len.to_be_bytes());
    h[4..6].copy_from_slice(&0x1234u16.to_be_bytes()); // identification
    h[8] = 64; // ttl
    h[9] = 6; // protocol: tcp
    h[12..16].copy_from_slice(&[10, 0, 0, 1]); // source
    h[16..20].copy_from_slice(&[10, 0, 0, 2]); // destination
    h
}

fn tagged(proto: [u8; 4], rest: &[u8]) -> Vec<u8> {
    let mut f = proto.to_vec();
    f.extend_from_slice(rest);
    f
}

#[test]
fn short_frame_is_not_ipv4() {
    assert_eq!(classify_tun_frame(&[0, 0, 8]), FrameReport::NotIpv4);
    assert_eq!(classify_tun_frame(&[]), FrameReport::NotIpv4);
}

#[test]
fn ipv6_tag_is_skipped() {
    let f = tagged([0, 0, 0x86, 0xdd], &ipv4_header(40));
    assert_eq!(classify_tun_frame(&f), FrameReport::NotIpv4);
}

#[test]
fn valid_ipv4_frame_is_summarized() {
    let f = tagged([0, 0, 8, 0], &ipv4_header(60));
    match classify_tun_frame(&f) {
        FrameReport::Ipv4(s) => {
            assert_eq!(s.source, [10, 0, 0, 1]);
            assert_eq!(s.destination, [10, 0, 0, 2]);
            assert_eq!(s.ttl, 64);
            assert_eq!(s.protocol, 6);
            assert_eq!(s.identification, 0x1234);
            assert_eq!(s.total_len, 60);
            assert_eq!(s.payload_len, Some(40));
        }
        other => panic!("expected an IPv4 summary, got {:?}", other),
    }
}

#[test]
fn total_len_below_header_gives_no_payload_len() {
    let f = tagged([0, 0, 8, 0], &ipv4_header(19));
    match classify_tun_frame(&f) {
        FrameReport::Ipv4(s) => assert_eq!(s.payload_len, None),
        other => panic!("expected an IPv4 summary, got {:?}", other),
    }
}

#[test]
fn wrong_version_is_a_parse_error() {
    let mut h = ipv4_header(40);
    h[0] = 0x65; // version 6
    let f = tagged([0, 0, 8, 0], &h);
    assert_eq!(classify_tun_frame(&f), FrameReport::ParseError);
}

#[test]
fn truncated_header_is_a_parse_error() {
    let f = tagged([0, 0, 8, 0], &ipv4_header(40)[..10]);
    assert_eq!(classify_tun_frame(&f), FrameReport::ParseError);
}

#[test]
fn ihl_below_five_is_a_parse_error() {
    let mut h = ipv4_header(40);
    h[0] = 0x44; // version 4, ihl 4
    let f = tagged([0, 0, 8, 0], &h);
    assert_eq!(classify_tun_frame(&f), FrameReport::ParseError);
}

#[test]
fn shutdown_timer_boundary() {
    assert!(!should_shut_down(0));
    assert!(!should_shut_down(1));
    assert!(should_shut_down(2));
    assert!(should_shut_down(100));
}
