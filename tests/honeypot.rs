use aegis_shield::{handle_connection, ipv4, ipv4_text, GeoIpManager, HoneypotState, PeerAddress};

fn fence() -> GeoIpManager {
    let mut g = GeoIpManager::new();
    g.parse_and_update("9.9.9.0/24\n");
    g
}

#[test]
fn peer_inside_the_fence_gets_a_decoy_and_one_alert() {
    let g = fence();
    let state = HoneypotState::new();
    let d = handle_connection(&g, &state.custom_message, PeerAddress::V4(ipv4(9, 9, 9, 1))).unwrap();
    assert!(d.response.starts_with("HTTP/1.1 200 OK\r\n"));
    assert_eq!(
        d.response,
        "HTTP/1.1 200 OK\r\nContent-Type: text/plain\r\n\r\nACCESS DENIED: Tracking Attempt Detected."
    );
    assert_eq!(d.alert, "Blocked tracking attempt from Israel (9.9.9.1)");
    assert_eq!(d.peer, ipv4(9, 9, 9, 1));
}

#[test]
fn peer_outside_the_fence_gets_nothing() {
    let g = fence();
    assert!(handle_connection(&g, "msg", PeerAddress::V4(ipv4(8, 8, 8, 8))).is_none());
}

#[test]
fn ipv6_peer_is_never_classified() {
    let mut g = GeoIpManager::new();
    g.parse_and_update("0.0.0.0/0");
    assert!(handle_connection(&g, "msg", PeerAddress::V6).is_none());
}

#[test]
fn custom_message_is_the_body() {
    let g = fence();
    let d = handle_connection(&g, "go away", PeerAddress::V4(ipv4(9, 9, 9, 254))).unwrap();
    assert!(d.response.ends_with("\r\n\r\ngo away"));
    assert_eq!(d.alert, "Blocked tracking attempt from Israel (9.9.9.254)");
}

#[test]
fn honeypot_state_defaults() {
    let s = HoneypotState::new();
    assert!(!s.is_active);
    assert_eq!(s.custom_message, "ACCESS DENIED: Tracking Attempt Detected.");
}

#[test]
fn dotted_decimal_text() {
    assert_eq!(ipv4_text(ipv4(0, 0, 0, 0)), "0.0.0.0");
    assert_eq!(ipv4_text(ipv4(10, 100, 255, 7)), "10.100.255.7");
    assert_eq!(ipv4_text(u32::MAX), "255.255.255.255");
}
