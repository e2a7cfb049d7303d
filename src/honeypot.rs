//! The honeypot's decision for one accepted connection: a peer inside the
//! geofence gets a decoy response and raises an alert; any other gets nothing.
use crate::geoip::{in_any, GeoIpManager};
use vstd::prelude::*;

verus! {

/// The operator's settings for the honeypot.
pub struct HoneypotState {
    pub is_active: bool,
    /// The body of the decoy response.
    pub custom_message: String,
}

impl HoneypotState {
    /// Inactive, with the default decoy message.
    pub fn new() -> (r: Self)
        ensures
            !r.is_active,
            r.custom_message@ == "ACCESS DENIED: Tracking Attempt Detected."@,
    {
        HoneypotState {
            is_active: false,
            custom_message: String::from_str("ACCESS DENIED: Tracking Attempt Detected."),
        }
    }
}

/// The address of a connection's peer; IPv6 peers are never classified.
#[derive(Clone, Copy, Debug, PartialEq, Eq, Structural)]
pub enum PeerAddress {
    V4(u32),
    V6,
}

/// What to do for a connection from inside the geofence: write `response` to
/// it and raise `alert` about `peer`.
pub struct Decoy {
    pub peer: u32,
    pub response: String,
    pub alert: String,
}

pub open spec fn digit(d: int) -> Seq<char> {
    if d == 0 {
        "0"@
    } else if d == 1 {
        "1"@
    } else if d == 2 {
        "2"@
    } else if d == 3 {
        "3"@
    } else if d == 4 {
        "4"@
    } else if d == 5 {
        "5"@
    } else if d == 6 {
        "6"@
    } else if d == 7 {
        "7"@
    } else if d == 8 {
        "8"@
    } else {
        "9"@
    }
}

/// An octet in decimal, without leading zeros.
pub open spec fn decimal(n: u8) -> Seq<char> {
    if n < 10 {
        digit(n as int)
    } else if n < 100 {
        digit(n as int / 10) + digit(n as int % 10)
    } else {
        digit(n as int / 100) + digit((n as int / 10) % 10) + digit(n as int % 10)
    }
}

pub open spec fn octet(a: u32, k: int) -> u8 {
    ((a as int / pow256(k)) % 256) as u8
}

pub open spec fn pow256(k: int) -> int {
    if k == 3 {
        16777216
    } else if k == 2 {
        65536
    } else if k == 1 {
        256
    } else {
        1
    }
}

/// An IPv4 address in dotted-decimal form, most significant octet first.
pub open spec fn dotted(a: u32) -> Seq<char> {
    decimal(octet(a, 3)) + "."@ + decimal(octet(a, 2)) + "."@ + decimal(octet(a, 1)) + "."@
        + decimal(octet(a, 0))
}

/// A successful plain-text HTTP response whose body is the message.
pub open spec fn decoy_response(message: Seq<char>) -> Seq<char> {
    "HTTP/1.1 200 OK\r\nContent-Type: text/plain\r\n\r\n"@ + message
}

/// The alert raised for a connection from inside the geofence.
pub open spec fn alert_text(a: u32) -> Seq<char> {
    "Blocked tracking attempt from Israel ("@ + dotted(a) + ")"@
}

pub(crate) fn digit_text(d: u8) -> (r: &'static str)
    requires
        d < 10,
    ensures
        r@ == digit(d as int),
{
    if d == 0 {
        "0"
    } else if d == 1 {
        "1"
    } else if d == 2 {
        "2"
    } else if d == 3 {
        "3"
    } else if d == 4 {
        "4"
    } else if d == 5 {
        "5"
    } else if d == 6 {
        "6"
    } else if d == 7 {
        "7"
    } else if d == 8 {
        "8"
    } else {
        "9"
    }
}

fn append_decimal(out: &mut String, n: u8)
    ensures
        final(out)@ == old(out)@ + decimal(n),
{
    let ghost start = out@;
    if n < 10 {
        out.append(digit_text(n));
    } else if n < 100 {
        out.append(digit_text(n / 10));
        out.append(digit_text(n % 10));
    } else {
        out.append(digit_text(n / 100));
        out.append(digit_text((n / 10) % 10));
        out.append(digit_text(n % 10));
    }
    assert(out@ =~= start + decimal(n));
}

/// The address in dotted-decimal form.
pub fn ipv4_text(a: u32) -> (r: String)
    ensures
        r@ == dotted(a),
{
    let mut out = String::new();
    append_decimal(&mut out, (a / 16777216) as u8);
    out.append(".");
    append_decimal(&mut out, ((a / 65536) % 256) as u8);
    out.append(".");
    append_decimal(&mut out, ((a / 256) % 256) as u8);
    out.append(".");
    append_decimal(&mut out, (a % 256) as u8);
    assert(out@ =~= dotted(a));
    out
}

/// Decides for one connection: a decoy exactly when the peer is an IPv4
/// address inside the geofence.
pub fn handle_connection(geoip: &GeoIpManager, message: &str, peer: PeerAddress) -> (r: Option<
    Decoy,
>)
    requires
        geoip.wf(),
    ensures
        r is Some <==> (peer matches PeerAddress::V4(a) && in_any(geoip@.prefixes, a)),
        r matches Some(d) ==> peer == PeerAddress::V4(d.peer) && d.response@ == decoy_response(
            message@,
        ) && d.alert@ == alert_text(d.peer),
{
    match peer {
        PeerAddress::V4(a) => {
            if geoip.is_target(a) {
                let response = String::from_str("HTTP/1.1 200 OK\r\nContent-Type: text/plain\r\n\r\n").concat(message);
                let mut alert = String::from_str("Blocked tracking attempt from Israel (");
                let ip = ipv4_text(a);
                alert.append(ip.as_str());
                alert.append(")");
                Some(Decoy { peer: a, response, alert })
            } else {
                None
            }
        },
        PeerAddress::V6 => None,
    }
}

} // verus!
