//! The anonymizing proxy's side: whether its configuration enables the
//! transparent port, the firewall batches that start and stop the protected
//! posture for it, and the lines of its control protocol.
use crate::firewall::{open_batch, ops_view, protected_batch, IptablesManager, RuleOperation};
use vstd::prelude::*;

verus! {

/// The operating-system user that the proxy daemon runs as.
pub const TOR_UID: &'static str = "debian-tor";

/// The proxy's transparent TCP port.
pub const TRANS_PORT: &'static str = "9040";

/// The proxy's DNS port.
pub const DNS_PORT: &'static str = "5353";

/// Whether the protected posture is in force, as the operator last set it.
pub struct AnonsurfState {
    pub is_active: bool,
}

impl AnonsurfState {
    pub fn new() -> (r: Self)
        ensures
            !r.is_active,
    {
        AnonsurfState { is_active: false }
    }
}

/// `needle` occurs in `hay` as a run of consecutive characters.
pub open spec fn occurs_in(hay: Seq<char>, needle: Seq<char>) -> bool {
    exists|i: int|
        0 <= i && i + needle.len() <= hay.len() && #[trigger] hay.subrange(i, i + needle.len())
            == needle
}

/// Relies on `str::contains` with a `&str` pattern: whether the pattern
/// matches a sub-slice of the text.
#[verifier::external_body]
fn text_contains(hay: &str, needle: &str) -> (r: bool)
    ensures
        r == occurs_in(hay@, needle@),
{
    hay.contains(needle)
}

pub struct Anonsurf;

impl Anonsurf {
    /// Whether the proxy's configuration already opens the transparent port.
    pub fn tor_configured(torrc: &str) -> (r: bool)
        ensures
            r == occurs_in(torrc@, "TransPort 9040"@),
    {
        text_contains(torrc, "TransPort 9040")
    }

    /// The batch that puts the protected posture in force for the proxy.
    pub fn start() -> (r: Vec<RuleOperation>)
        ensures
            ops_view(r@) == protected_batch(TOR_UID@, DNS_PORT@, TRANS_PORT@),
    {
        IptablesManager::apply_rules(TOR_UID, DNS_PORT, TRANS_PORT)
    }

    /// The batch that returns to the open posture.
    pub fn stop() -> (r: Vec<RuleOperation>)
        ensures
            ops_view(r@) == open_batch(),
    {
        IptablesManager::flush_rules()
    }

    /// The lines sent on the proxy's control port to raise a signal:
    /// authenticate with an empty password, the signal, and quit.
    pub fn control_lines(signal: &str) -> (r: Vec<String>)
        ensures
            r@.len() == 3,
            r@[0]@ == "AUTHENTICATE \"\"\r\n"@,
            r@[1]@ == "SIGNAL "@ + signal@ + "\r\n"@,
            r@[2]@ == "QUIT\r\n"@,
    {
        let mut cmd = String::from_str("SIGNAL ");
        cmd.append(signal);
        cmd.append("\r\n");
        vec![String::from_str("AUTHENTICATE \"\"\r\n"), cmd, String::from_str("QUIT\r\n")]
    }

    /// The control lines that ask the proxy for a new identity.
    pub fn new_identity() -> (r: Vec<String>)
        ensures
            r@.len() == 3,
            r@[0]@ == "AUTHENTICATE \"\"\r\n"@,
            r@[1]@ == "SIGNAL "@ + "NEWNYM"@ + "\r\n"@,
            r@[2]@ == "QUIT\r\n"@,
    {
        Self::control_lines("NEWNYM")
    }
}

} // verus!
