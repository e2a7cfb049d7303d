use aegis_shield::{
    batch_script, clean_logs, identity_value, randomize_hostname, restore_mac, set_utc_timezone,
    spoof_mac, wipe_ram, Anonsurf, AnonsurfState,
};

#[test]
fn spoof_mac_batch() {
    let script = batch_script(&spoof_mac("eth0"));
    assert_eq!(script, "ip link set eth0 down && macchanger -r eth0 && ip link set eth0 up");
}

#[test]
fn restore_mac_batch() {
    let script = batch_script(&restore_mac("wlan0"));
    assert_eq!(script, "ip link set wlan0 down && macchanger -p wlan0 && ip link set wlan0 up");
}

#[test]
fn interface_name_with_shell_syntax_is_quoted() {
    assert_eq!(
        batch_script(&spoof_mac("eth0; reboot")),
        "ip link set 'eth0; reboot' down && macchanger -r 'eth0; reboot' && ip link set 'eth0; reboot' up"
    );
}

#[test]
fn clean_logs_batch() {
    let script = batch_script(&clean_logs());
    assert_eq!(
        script,
        "truncate -s 0 /var/log/syslog && truncate -s 0 /var/log/auth.log && truncate -s 0 /var/log/kern.log"
    );
}

#[test]
fn single_commands() {
    assert_eq!(wipe_ram(), vec!["sh", "-c", "sync; echo 3 > /proc/sys/vm/drop_caches"]);
    assert_eq!(set_utc_timezone(), vec!["ln", "-sf", "/usr/share/zoneinfo/UTC", "/etc/localtime"]);
}

#[test]
fn hostname_from_identifier() {
    let (name, cmd) = randomize_hostname(4071);
    assert_eq!(name, "anon-4071");
    assert_eq!(cmd, vec!["hostnamectl", "set-hostname", "anon-4071"]);
    assert_eq!(randomize_hostname(1000).0, "anon-1000");
    assert_eq!(randomize_hostname(9998).0, "anon-9998");
}

#[test]
fn identity_value_trims_or_reports_unknown() {
    assert_eq!(identity_value(Some("  aa:bb:cc:dd:ee:ff\n")), "aa:bb:cc:dd:ee:ff");
    assert_eq!(identity_value(None), "unknown");
}

#[test]
fn control_protocol_lines() {
    assert_eq!(
        Anonsurf::new_identity(),
        vec!["AUTHENTICATE \"\"\r\n", "SIGNAL NEWNYM\r\n", "QUIT\r\n"]
    );
    assert_eq!(Anonsurf::control_lines("RELOAD")[1], "SIGNAL RELOAD\r\n");
}

#[test]
fn torrc_check() {
    assert!(Anonsurf::tor_configured("SocksPort 9050\nTransPort 9040 IsolateClientAddr\n"));
    assert!(!Anonsurf::tor_configured("SocksPort 9050\nTransPort 9041\n"));
    assert!(!Anonsurf::tor_configured(""));
}

#[test]
fn anonsurf_state_starts_inactive() {
    assert!(!AnonsurfState::new().is_active);
}
