use aegis_shield::{ipv4, parse_prefix_list, split_lines, GeoIpManager, NetworkPrefix};

fn fence(text: &str) -> GeoIpManager {
    let mut g = GeoIpManager::new();
    g.parse_and_update(text);
    g
}

#[test]
fn single_prefix_classifies_inside_and_outside() {
    let g = fence("1.2.3.0/24");
    assert!(g.is_target(ipv4(1, 2, 3, 5)));
    assert!(!g.is_target(ipv4(1, 2, 4, 5)));
}

#[test]
fn prefix_range_edges() {
    let g = fence("10.0.0.0/8\n");
    assert!(g.is_target(ipv4(10, 0, 0, 0)));
    assert!(g.is_target(ipv4(10, 255, 255, 255)));
    assert!(!g.is_target(ipv4(11, 0, 0, 0)));
    assert!(!g.is_target(ipv4(9, 255, 255, 255)));
}

#[test]
fn host_bits_in_the_written_address_are_masked() {
    let g = fence("192.168.1.77/24");
    assert!(g.is_target(ipv4(192, 168, 1, 1)));
    assert!(!g.is_target(ipv4(192, 168, 2, 1)));
}

#[test]
fn zero_and_full_length_prefixes() {
    let all = fence("0.0.0.0/0");
    assert!(all.is_target(ipv4(255, 255, 255, 255)));
    assert!(all.is_target(ipv4(0, 0, 0, 0)));
    let one = fence("8.8.8.8/32");
    assert!(one.is_target(ipv4(8, 8, 8, 8)));
    assert!(!one.is_target(ipv4(8, 8, 8, 9)));
}

#[test]
fn empty_geofence_matches_nothing() {
    let g = GeoIpManager::new();
    assert!(!g.is_target(ipv4(1, 2, 3, 4)));
}

#[test]
fn malformed_lines_are_skipped() {
    let list = parse_prefix_list("1.2.3.0/24\nnot-a-cidr\n5.6.0.0/16\n1.2.3.4/33\n\n  7.0.0.0/8  \r\n");
    assert_eq!(
        list,
        vec![
            NetworkPrefix { addr: ipv4(1, 2, 3, 0), prefix_len: 24 },
            NetworkPrefix { addr: ipv4(5, 6, 0, 0), prefix_len: 16 },
            NetworkPrefix { addr: ipv4(7, 0, 0, 0), prefix_len: 8 },
        ]
    );
}

#[test]
fn split_lines_follows_line_endings() {
    assert_eq!(split_lines("a\r\nb\n\nc"), vec!["a", "b", "", "c"]);
    assert_eq!(split_lines("a\n"), vec!["a"]);
    assert_eq!(split_lines(""), Vec::<&str>::new());
}

#[test]
fn failed_refresh_keeps_set_and_time() {
    let mut g = fence("1.2.3.0/24");
    g.apply_fetch(Some("9.9.9.0/24"), 5000);
    g.apply_fetch(None, 999_999);
    assert!(g.is_target(ipv4(9, 9, 9, 1)));
    assert!(!g.needs_update(5000 + 86400));
    assert!(g.needs_update(5000 + 86401));
}

#[test]
fn successful_refresh_replaces_the_whole_set() {
    let mut g = fence("1.2.3.0/24\n4.4.0.0/16");
    g.apply_fetch(Some("9.9.9.0/24\ngarbage"), 100);
    assert!(!g.is_target(ipv4(1, 2, 3, 5)));
    assert!(!g.is_target(ipv4(4, 4, 1, 1)));
    assert!(g.is_target(ipv4(9, 9, 9, 200)));
}

#[test]
fn staleness_policy() {
    let g = GeoIpManager::new();
    assert!(g.needs_update(86401));
    assert!(g.needs_update(86400));
    assert!(g.needs_update(100));
    assert!(g.needs_update(0));
    let mut early = GeoIpManager::new();
    early.apply_fetch(Some("1.0.0.0/8"), 0);
    assert!(!early.needs_update(100));
    let mut h = GeoIpManager::new();
    h.apply_fetch(Some(""), 1_000_000);
    assert!(h.needs_update(999_999));
    assert!(!h.needs_update(1_000_000));
}

#[test]
fn cache_load_keeps_refresh_time() {
    let mut g = GeoIpManager::new();
    g.apply_fetch(Some("1.0.0.0/8"), 500);
    g.parse_and_update("2.0.0.0/8");
    assert!(g.is_target(ipv4(2, 1, 1, 1)));
    assert!(!g.is_target(ipv4(1, 1, 1, 1)));
    assert!(!g.needs_update(600));
}

#[test]
fn ipv4_octets() {
    assert_eq!(ipv4(1, 2, 3, 4), 0x0102_0304);
    assert_eq!(ipv4(255, 255, 255, 255), u32::MAX);
}

#[test]
fn init_loads_the_cache_and_reports_staleness() {
    let mut g = GeoIpManager::new();
    assert!(g.init(Some("3.3.3.0/24\n"), 1_700_000_000));
    assert!(g.is_target(ipv4(3, 3, 3, 3)));
    let mut fresh = GeoIpManager::new();
    assert!(fresh.init(None, 100));
    let mut h = GeoIpManager::new();
    h.apply_fetch(Some("4.0.0.0/8"), 1000);
    assert!(!h.init(None, 2000));
    assert!(h.is_target(ipv4(4, 1, 2, 3)));
}
