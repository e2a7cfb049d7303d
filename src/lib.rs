//! Network anonymization posture: firewall rule batches that force traffic
//! through a transparent proxy, a geofence of IPv4 prefixes, and a honeypot
//! that decoys connections from the fenced ranges.
pub mod anonsurf;
pub mod firewall;
pub mod geoip;
pub mod honeypot;
pub mod shell;
pub mod stats;
pub mod stealth;

pub use anonsurf::{Anonsurf, AnonsurfState, DNS_PORT, TOR_UID, TRANS_PORT};
pub use firewall::{
    Chain, Criterion, Family, IptablesManager, OperationView, Policy, Protocol, RuleOperation,
    Table, Target,
};
pub use geoip::{ipv4, parse_prefix_list, split_lines, GeoIpManager, GeofenceView, NetworkPrefix};
pub use honeypot::{handle_connection, ipv4_text, Decoy, HoneypotState, PeerAddress};
pub use shell::{batch_script, command_text, is_safe_word, quote_word};
pub use stats::{counts_from_fields, parse_u64, read_total_traffic, traffic_rate, TrafficStats};
pub use stealth::{
    clean_logs, identity_value, randomize_hostname, restore_mac, set_utc_timezone, spoof_mac,
    wipe_ram,
};
