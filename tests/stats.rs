use aegis_shield::{counts_from_fields, parse_u64, read_total_traffic, traffic_rate, TrafficStats};

const NET_DEV: &str = "Inter-|   Receive                                                |  Transmit
 face |bytes    packets errs drop fifo frame compressed multicast|bytes    packets errs drop fifo colls carrier compressed
    lo: 88701888  110555    0    0    0     0          0         0 88701888  110555    0    0    0     0       0          0
  eth0: 1000 20 0 0 0 0 0 0 500 10 0 0 0 0 0 0
  bad: x
";

#[test]
fn totals_sum_every_interface() {
    assert_eq!(read_total_traffic(NET_DEV), (88702888, 88702388));
}

#[test]
fn totals_of_headers_only_are_zero() {
    assert_eq!(read_total_traffic("a\nb\n"), (0, 0));
    assert_eq!(read_total_traffic(""), (0, 0));
}

#[test]
fn decimal_reading_matches_from_str() {
    for s in ["0", "42", "+7", "", "+", "-1", "12a", " 1", "18446744073709551615", "18446744073709551616", "99999999999999999999999"] {
        assert_eq!(parse_u64(s), s.parse::<u64>().ok(), "{}", s);
    }
}

#[test]
fn first_sample_gives_no_rate() {
    assert_eq!(traffic_rate((0, 0), (100, 50)), None);
}

#[test]
fn rate_is_the_difference() {
    assert_eq!(
        traffic_rate((1000, 500), (1600, 800)),
        Some(TrafficStats { up_speed: 300, down_speed: 600 })
    );
    assert_eq!(
        traffic_rate((1000, 500), (900, 500)),
        Some(TrafficStats { up_speed: 0, down_speed: 0 })
    );
}

#[test]
fn counts_come_from_the_second_and_tenth_fields() {
    let row = vec!["eth0:", "7", "1", "0", "0", "0", "0", "0", "0", "9", "1"];
    assert_eq!(counts_from_fields(&row), Some((7, 9)));
    assert_eq!(counts_from_fields(&row[..9].to_vec()), None);
    let bad = vec!["eth0:", "7", "1", "0", "0", "0", "0", "0", "0", "x"];
    assert_eq!(counts_from_fields(&bad), None);
}
