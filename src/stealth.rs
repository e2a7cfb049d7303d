//! The device-identity utilities, each as the privileged command (or batch of
//! commands) that it runs.
use crate::geoip::{trim_whitespace, trimmed};
use crate::honeypot::{digit, digit_text};
use crate::shell::{commands_view, words_view};
use vstd::prelude::*;

verus! {

fn owned(s: &str) -> (r: String)
    ensures
        r@ == s@,
{
    String::from_str(s)
}

fn words3(a: &str, b: &str, c: &str) -> (r: Vec<String>)
    ensures
        words_view(r@) == seq![a@, b@, c@],
{
    let r = vec![owned(a), owned(b), owned(c)];
    assert(words_view(r@) =~= seq![a@, b@, c@]);
    r
}

fn words4(a: &str, b: &str, c: &str, d: &str) -> (r: Vec<String>)
    ensures
        words_view(r@) == seq![a@, b@, c@, d@],
{
    let r = vec![owned(a), owned(b), owned(c), owned(d)];
    assert(words_view(r@) =~= seq![a@, b@, c@, d@]);
    r
}

fn words5(a: &str, b: &str, c: &str, d: &str, e: &str) -> (r: Vec<String>)
    ensures
        words_view(r@) == seq![a@, b@, c@, d@, e@],
{
    let r = vec![owned(a), owned(b), owned(c), owned(d), owned(e)];
    assert(words_view(r@) =~= seq![a@, b@, c@, d@, e@]);
    r
}

/// Takes the interface down, sets a MAC address with `macchanger` (`flag`),
/// and brings the interface up again.
pub open spec fn mac_batch(interface: Seq<char>, flag: Seq<char>) -> Seq<Seq<Seq<char>>> {
    seq![
        seq!["ip"@, "link"@, "set"@, interface, "down"@],
        seq!["macchanger"@, flag, interface],
        seq!["ip"@, "link"@, "set"@, interface, "up"@],
    ]
}

fn mac_commands(interface: &str, flag: &str) -> (r: Vec<Vec<String>>)
    ensures
        commands_view(r@) == mac_batch(interface@, flag@),
{
    let r = vec![
        words5("ip", "link", "set", interface, "down"),
        words3("macchanger", flag, interface),
        words5("ip", "link", "set", interface, "up"),
    ];
    assert(commands_view(r@) =~= mac_batch(interface@, flag@));
    r
}

/// The batch that gives the interface a random MAC address.
pub fn spoof_mac(interface: &str) -> (r: Vec<Vec<String>>)
    ensures
        commands_view(r@) == mac_batch(interface@, "-r"@),
{
    mac_commands(interface, "-r")
}

/// The batch that gives the interface back its permanent MAC address.
pub fn restore_mac(interface: &str) -> (r: Vec<Vec<String>>)
    ensures
        commands_view(r@) == mac_batch(interface@, "-p"@),
{
    mac_commands(interface, "-p")
}

/// The command that flushes the kernel's page, dentry and inode caches.
pub fn wipe_ram() -> (r: Vec<String>)
    ensures
        words_view(r@) == seq!["sh"@, "-c"@, "sync; echo 3 > /proc/sys/vm/drop_caches"@],
{
    words3("sh", "-c", "sync; echo 3 > /proc/sys/vm/drop_caches")
}

/// The command that sets the system time zone to UTC.
pub fn set_utc_timezone() -> (r: Vec<String>)
    ensures
        words_view(r@) == seq!["ln"@, "-sf"@, "/usr/share/zoneinfo/UTC"@, "/etc/localtime"@],
{
    words4("ln", "-sf", "/usr/share/zoneinfo/UTC", "/etc/localtime")
}

/// The batch that empties the system, authentication and kernel logs.
pub fn clean_logs() -> (r: Vec<Vec<String>>)
    ensures
        commands_view(r@) == seq![
            seq!["truncate"@, "-s"@, "0"@, "/var/log/syslog"@],
            seq!["truncate"@, "-s"@, "0"@, "/var/log/auth.log"@],
            seq!["truncate"@, "-s"@, "0"@, "/var/log/kern.log"@],
        ],
{
    let logs = ["/var/log/syslog", "/var/log/auth.log", "/var/log/kern.log"];
    let mut commands: Vec<Vec<String>> = Vec::new();
    let mut i: usize = 0;
    while i < 3
        invariant
            i <= 3,
            logs@ == seq!["/var/log/syslog", "/var/log/auth.log", "/var/log/kern.log"],
            commands@.len() == i,
            forall|k: int| 0 <= k < i ==> words_view((#[trigger] commands@[k])@) == seq![
                "truncate"@,
                "-s"@,
                "0"@,
                logs@[k]@,
            ],
        decreases 3 - i,
    {
        commands.push(words4("truncate", "-s", "0", logs[i]));
        i = i + 1;
    }
    assert(commands_view(commands@) =~= seq![
        seq!["truncate"@, "-s"@, "0"@, "/var/log/syslog"@],
        seq!["truncate"@, "-s"@, "0"@, "/var/log/auth.log"@],
        seq!["truncate"@, "-s"@, "0"@, "/var/log/kern.log"@],
    ]);
    commands
}

/// The host name for a four-digit identifier: `anon-` and its digits.
pub open spec fn hostname_for(id: int) -> Seq<char> {
    "anon-"@ + digit(id / 1000) + digit((id / 100) % 10) + digit((id / 10) % 10) + digit(
        id % 10,
    )
}

/// The new host name for a random four-digit identifier, and the command that
/// sets it.
pub fn randomize_hostname(random_id: u32) -> (r: (String, Vec<String>))
    requires
        1000 <= random_id < 10000,
    ensures
        r.0@ == hostname_for(random_id as int),
        words_view(r.1@) == seq!["hostnamectl"@, "set-hostname"@, hostname_for(random_id as int)],
{
    let mut name = owned("anon-");
    name.append(digit_text((random_id / 1000) as u8));
    name.append(digit_text(((random_id / 100) % 10) as u8));
    name.append(digit_text(((random_id / 10) % 10) as u8));
    name.append(digit_text((random_id % 10) as u8));
    let cmd = words3("hostnamectl", "set-hostname", name.as_str());
    (name, cmd)
}

/// The value that a system file holds, trimmed; `unknown` where it could not be read.
pub fn identity_value(content: Option<&str>) -> (r: String)
    ensures
        r@ == match content {
            Some(c) => trimmed(c@),
            None => "unknown"@,
        },
{
    match content {
        Some(c) => owned(trim_whitespace(c)),
        None => owned("unknown"),
    }
}

} // verus!
