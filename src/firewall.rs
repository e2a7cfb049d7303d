//! Firewall rule batches: structured operations for the IPv4 and IPv6 packet
//! filters, the two posture transitions, and a model of what a batch does to
//! the filters' state.
use crate::shell::{all_safe, commands_view, safe_word, words_view};
use vstd::prelude::*;

verus! {

/// Which packet filter an operation addresses: IPv4 (`iptables`) or IPv6 (`ip6tables`).
#[derive(Clone, Copy, Debug, PartialEq, Eq, Structural)]
pub enum Family {
    V4,
    V6,
}

#[derive(Clone, Copy, Debug, PartialEq, Eq, Structural)]
pub enum Table {
    Filter,
    Nat,
}

/// The three base chains.
#[derive(Clone, Copy, Debug, PartialEq, Eq, Structural)]
pub enum Chain {
    Input,
    Forward,
    Output,
}

/// A base chain's default policy.
#[derive(Clone, Copy, Debug, PartialEq, Eq, Structural)]
pub enum Policy {
    Accept,
    Drop,
}

#[derive(Clone, Copy, Debug, PartialEq, Eq, Structural)]
pub enum Protocol {
    Tcp,
    Udp,
}

/// One match criterion of an appended rule; `S` is the text of a parameter
/// (a `String`, or its view).
#[derive(Clone, Debug)]
pub enum Criterion<S> {
    /// Arriving on the loopback interface.
    InLoopback,
    /// Leaving on the loopback interface.
    OutLoopback,
    /// Belonging to an established or related connection.
    EstablishedRelated,
    Protocol(Protocol),
    DestPort(S),
    /// Sent by a process of this operating-system user.
    UidOwner(S),
    /// A TCP segment that opens a connection.
    TcpSyn,
    /// Addressed to 127.0.0.1.
    DestLocalhost,
}

/// What an appended rule does with a matching packet.
#[derive(Clone, Debug)]
pub enum Target<S> {
    Accept,
    Drop,
    /// Leave the chain: no further rule of it applies.
    Return,
    /// Rewrite the destination to this local port.
    Redirect(S),
}

/// One firewall directive.
#[derive(Clone, Debug)]
pub enum RuleOperation {
    SetPolicy { family: Family, chain: Chain, policy: Policy },
    Append {
        family: Family,
        table: Table,
        chain: Chain,
        criteria: Vec<Criterion<String>>,
        target: Target<String>,
    },
    /// Remove every rule of the table.
    Flush { family: Family, table: Table },
    /// Remove the table's user-defined chains.
    DeleteChains { family: Family, table: Table },
}

/// A directive with its texts as character sequences.
pub enum OperationView {
    SetPolicy { family: Family, chain: Chain, policy: Policy },
    Append {
        family: Family,
        table: Table,
        chain: Chain,
        criteria: Seq<Criterion<Seq<char>>>,
        target: Target<Seq<char>>,
    },
    Flush { family: Family, table: Table },
    DeleteChains { family: Family, table: Table },
}

pub open spec fn criterion_view(c: Criterion<String>) -> Criterion<Seq<char>> {
    match c {
        Criterion::InLoopback => Criterion::InLoopback,
        Criterion::OutLoopback => Criterion::OutLoopback,
        Criterion::EstablishedRelated => Criterion::EstablishedRelated,
        Criterion::Protocol(p) => Criterion::Protocol(p),
        Criterion::DestPort(s) => Criterion::DestPort(s@),
        Criterion::UidOwner(s) => Criterion::UidOwner(s@),
        Criterion::TcpSyn => Criterion::TcpSyn,
        Criterion::DestLocalhost => Criterion::DestLocalhost,
    }
}

pub open spec fn target_view(t: Target<String>) -> Target<Seq<char>> {
    match t {
        Target::Accept => Target::Accept,
        Target::Drop => Target::Drop,
        Target::Return => Target::Return,
        Target::Redirect(s) => Target::Redirect(s@),
    }
}

impl View for RuleOperation {
    type V = OperationView;

    open spec fn view(&self) -> OperationView {
        match *self {
            RuleOperation::SetPolicy { family, chain, policy } => OperationView::SetPolicy {
                family,
                chain,
                policy,
            },
            RuleOperation::Append { family, table, chain, criteria, target } => {
                OperationView::Append {
                    family,
                    table,
                    chain,
                    criteria: criteria_view(criteria@),
                    target: target_view(target),
                }
            },
            RuleOperation::Flush { family, table } => OperationView::Flush { family, table },
            RuleOperation::DeleteChains { family, table } => OperationView::DeleteChains {
                family,
                table,
            },
        }
    }
}

/// The views of a batch's operations, in order.
pub open spec fn ops_view(v: Seq<RuleOperation>) -> Seq<OperationView> {
    v.map_values(|o: RuleOperation| o@)
}

pub open spec fn set_policy(family: Family, chain: Chain, policy: Policy) -> OperationView {
    OperationView::SetPolicy { family, chain, policy }
}

/// An IPv4 rule appended to a chain of a table.
pub open spec fn append(
    table: Table,
    chain: Chain,
    criteria: Seq<Criterion<Seq<char>>>,
    target: Target<Seq<char>>,
) -> OperationView {
    OperationView::Append { family: Family::V4, table, chain, criteria, target }
}

/// The protected posture, in its order: deny by default; allow loopback and
/// established inbound traffic; send DNS to `dns_port`; let the proxy's user
/// out; in the NAT table pass the proxy's user and loopback and send every
/// other new TCP connection to `trans_port`; allow the redirected traffic to
/// reach the local ports; deny all IPv6.
pub open spec fn protected_batch(user: Seq<char>, dns_port: Seq<char>, trans_port: Seq<char>) -> Seq<
    OperationView,
> {
    seq![
        set_policy(Family::V4, Chain::Input, Policy::Drop),
        set_policy(Family::V4, Chain::Forward, Policy::Drop),
        set_policy(Family::V4, Chain::Output, Policy::Drop),
        append(Table::Filter, Chain::Input, seq![Criterion::InLoopback], Target::Accept),
        append(Table::Filter, Chain::Output, seq![Criterion::OutLoopback], Target::Accept),
        append(Table::Filter, Chain::Input, seq![Criterion::EstablishedRelated], Target::Accept),
        append(
            Table::Nat,
            Chain::Output,
            seq![Criterion::Protocol(Protocol::Udp), Criterion::DestPort("53"@)],
            Target::Redirect(dns_port),
        ),
        append(Table::Filter, Chain::Output, seq![Criterion::UidOwner(user)], Target::Accept),
        append(
            Table::Nat,
            Chain::Output,
            seq![Criterion::Protocol(Protocol::Tcp), Criterion::UidOwner(user)],
            Target::Return,
        ),
        append(Table::Nat, Chain::Output, seq![Criterion::OutLoopback], Target::Return),
        append(
            Table::Nat,
            Chain::Output,
            seq![Criterion::Protocol(Protocol::Tcp), Criterion::TcpSyn],
            Target::Redirect(trans_port),
        ),
        append(
            Table::Filter,
            Chain::Output,
            seq![
                Criterion::DestLocalhost,
                Criterion::Protocol(Protocol::Tcp),
                Criterion::DestPort(trans_port),
            ],
            Target::Accept,
        ),
        append(
            Table::Filter,
            Chain::Output,
            seq![
                Criterion::DestLocalhost,
                Criterion::Protocol(Protocol::Udp),
                Criterion::DestPort(dns_port),
            ],
            Target::Accept,
        ),
        set_policy(Family::V6, Chain::Input, Policy::Drop),
        set_policy(Family::V6, Chain::Output, Policy::Drop),
        set_policy(Family::V6, Chain::Forward, Policy::Drop),
    ]
}

/// The open posture: every base chain accepts; the IPv4 NAT and filter tables
/// and the IPv6 filter table are flushed, and the IPv4 tables' own chains removed.
pub open spec fn open_batch() -> Seq<OperationView> {
    seq![
        set_policy(Family::V4, Chain::Input, Policy::Accept),
        set_policy(Family::V4, Chain::Output, Policy::Accept),
        set_policy(Family::V4, Chain::Forward, Policy::Accept),
        OperationView::Flush { family: Family::V4, table: Table::Nat },
        OperationView::DeleteChains { family: Family::V4, table: Table::Nat },
        OperationView::Flush { family: Family::V4, table: Table::Filter },
        OperationView::DeleteChains { family: Family::V4, table: Table::Filter },
        set_policy(Family::V6, Chain::Input, Policy::Accept),
        set_policy(Family::V6, Chain::Output, Policy::Accept),
        set_policy(Family::V6, Chain::Forward, Policy::Accept),
        OperationView::Flush { family: Family::V6, table: Table::Filter },
    ]
}

fn owned(s: &str) -> (r: String)
    ensures
        r@ == s@,
{
    String::from_str(s)
}

fn policy_op(family: Family, chain: Chain, policy: Policy) -> (r: RuleOperation)
    ensures
        r@ == set_policy(family, chain, policy),
{
    RuleOperation::SetPolicy { family, chain, policy }
}

pub open spec fn criteria_view(v: Seq<Criterion<String>>) -> Seq<Criterion<Seq<char>>> {
    v.map_values(|c: Criterion<String>| criterion_view(c))
}

fn criteria1(a: Criterion<String>) -> (r: Vec<Criterion<String>>)
    ensures
        criteria_view(r@) == seq![criterion_view(a)],
{
    let r = vec![a];
    assert(criteria_view(r@) =~= seq![criterion_view(a)]);
    r
}

fn criteria2(a: Criterion<String>, b: Criterion<String>) -> (r: Vec<Criterion<String>>)
    ensures
        criteria_view(r@) == seq![criterion_view(a), criterion_view(b)],
{
    let r = vec![a, b];
    assert(criteria_view(r@) =~= seq![criterion_view(a), criterion_view(b)]);
    r
}

fn criteria3(a: Criterion<String>, b: Criterion<String>, c: Criterion<String>) -> (r: Vec<
    Criterion<String>,
>)
    ensures
        criteria_view(r@) == seq![criterion_view(a), criterion_view(b), criterion_view(c)],
{
    let r = vec![a, b, c];
    assert(criteria_view(r@) =~= seq![criterion_view(a), criterion_view(b), criterion_view(c)]);
    r
}

fn append_op(
    table: Table,
    chain: Chain,
    criteria: Vec<Criterion<String>>,
    target: Target<String>,
) -> (r: RuleOperation)
    ensures
        r@ == append(
            table,
            chain,
            criteria_view(criteria@),
            target_view(target),
        ),
{
    RuleOperation::Append { family: Family::V4, table, chain, criteria, target }
}

pub open spec fn tool_word(f: Family) -> Seq<char> {
    match f {
        Family::V4 => "iptables"@,
        Family::V6 => "ip6tables"@,
    }
}

pub open spec fn chain_word(c: Chain) -> Seq<char> {
    match c {
        Chain::Input => "INPUT"@,
        Chain::Forward => "FORWARD"@,
        Chain::Output => "OUTPUT"@,
    }
}

pub open spec fn policy_word(p: Policy) -> Seq<char> {
    match p {
        Policy::Accept => "ACCEPT"@,
        Policy::Drop => "DROP"@,
    }
}

pub open spec fn protocol_word(p: Protocol) -> Seq<char> {
    match p {
        Protocol::Tcp => "tcp"@,
        Protocol::Udp => "udp"@,
    }
}

/// The words that select a table; the filter table is the tool's default.
pub open spec fn table_words(t: Table) -> Seq<Seq<char>> {
    match t {
        Table::Filter => Seq::empty(),
        Table::Nat => seq!["-t"@, "nat"@],
    }
}

pub open spec fn criterion_words(c: Criterion<Seq<char>>) -> Seq<Seq<char>> {
    match c {
        Criterion::InLoopback => seq!["-i"@, "lo"@],
        Criterion::OutLoopback => seq!["-o"@, "lo"@],
        Criterion::EstablishedRelated => seq!["-m"@, "state"@, "--state"@, "ESTABLISHED,RELATED"@],
        Criterion::Protocol(p) => seq!["-p"@, protocol_word(p)],
        Criterion::DestPort(s) => seq!["--dport"@, s],
        Criterion::UidOwner(s) => seq!["-m"@, "owner"@, "--uid-owner"@, s],
        Criterion::TcpSyn => seq!["--syn"@],
        Criterion::DestLocalhost => seq!["-d"@, "127.0.0.1/32"@],
    }
}

pub open spec fn criteria_words(cs: Seq<Criterion<Seq<char>>>) -> Seq<Seq<char>>
    decreases cs.len(),
{
    if cs.len() == 0 {
        Seq::empty()
    } else {
        criteria_words(cs.drop_last()) + criterion_words(cs.last())
    }
}

pub open spec fn target_words(t: Target<Seq<char>>) -> Seq<Seq<char>> {
    match t {
        Target::Accept => seq!["ACCEPT"@],
        Target::Drop => seq!["DROP"@],
        Target::Return => seq!["RETURN"@],
        Target::Redirect(p) => seq!["REDIRECT"@, "--to-ports"@, p],
    }
}

/// The command line of an operation, word by word.
pub open spec fn op_words(o: OperationView) -> Seq<Seq<char>> {
    match o {
        OperationView::SetPolicy { family, chain, policy } => seq![
            tool_word(family),
            "-P"@,
            chain_word(chain),
            policy_word(policy),
        ],
        OperationView::Append { family, table, chain, criteria, target } => seq![tool_word(family)]
            + table_words(table) + seq!["-A"@, chain_word(chain)] + criteria_words(criteria)
            + seq!["-j"@] + target_words(target),
        OperationView::Flush { family, table } => seq![tool_word(family)] + table_words(table)
            + seq!["-F"@],
        OperationView::DeleteChains { family, table } => seq![tool_word(family)] + table_words(
            table,
        ) + seq!["-X"@],
    }
}

fn push_word(v: &mut Vec<String>, w: &str)
    ensures
        words_view(final(v)@) == words_view(old(v)@).push(w@),
{
    let ghost before = v@;
    v.push(String::from_str(w));
    assert(words_view(v@) =~= words_view(before).push(w@));
}

fn push_table(v: &mut Vec<String>, t: Table)
    ensures
        words_view(final(v)@) == words_view(old(v)@) + table_words(t),
{
    match t {
        Table::Filter => {
            assert(words_view(v@) =~= words_view(v@) + table_words(t));
        },
        Table::Nat => {
            let ghost before = words_view(v@);
            push_word(v, "-t");
            push_word(v, "nat");
            assert(words_view(v@) =~= before + table_words(t));
        },
    }
}

fn chain_text(c: Chain) -> (r: &'static str)
    ensures
        r@ == chain_word(c),
{
    match c {
        Chain::Input => "INPUT",
        Chain::Forward => "FORWARD",
        Chain::Output => "OUTPUT",
    }
}

fn protocol_text(p: Protocol) -> (r: &'static str)
    ensures
        r@ == protocol_word(p),
{
    match p {
        Protocol::Tcp => "tcp",
        Protocol::Udp => "udp",
    }
}

fn push_criterion(v: &mut Vec<String>, c: &Criterion<String>)
    ensures
        words_view(final(v)@) == words_view(old(v)@) + criterion_words(criterion_view(*c)),
{
    let ghost before = words_view(v@);
    match c {
        Criterion::InLoopback => {
            push_word(v, "-i");
            push_word(v, "lo");
        },
        Criterion::OutLoopback => {
            push_word(v, "-o");
            push_word(v, "lo");
        },
        Criterion::EstablishedRelated => {
            push_word(v, "-m");
            push_word(v, "state");
            push_word(v, "--state");
            push_word(v, "ESTABLISHED,RELATED");
        },
        Criterion::Protocol(p) => {
            push_word(v, "-p");
            push_word(v, protocol_text(*p));
        },
        Criterion::DestPort(s) => {
            push_word(v, "--dport");
            push_word(v, s.as_str());
        },
        Criterion::UidOwner(s) => {
            push_word(v, "-m");
            push_word(v, "owner");
            push_word(v, "--uid-owner");
            push_word(v, s.as_str());
        },
        Criterion::TcpSyn => {
            push_word(v, "--syn");
        },
        Criterion::DestLocalhost => {
            push_word(v, "-d");
            push_word(v, "127.0.0.1/32");
        },
    }
    assert(words_view(v@) =~= before + criterion_words(criterion_view(*c)));
}

fn push_target(v: &mut Vec<String>, t: &Target<String>)
    ensures
        words_view(final(v)@) == words_view(old(v)@) + target_words(target_view(*t)),
{
    let ghost before = words_view(v@);
    match t {
        Target::Accept => push_word(v, "ACCEPT"),
        Target::Drop => push_word(v, "DROP"),
        Target::Return => push_word(v, "RETURN"),
        Target::Redirect(p) => {
            push_word(v, "REDIRECT");
            push_word(v, "--to-ports");
            push_word(v, p.as_str());
        },
    }
    assert(words_view(v@) =~= before + target_words(target_view(*t)));
}

fn tool_text(f: Family) -> (r: &'static str)
    ensures
        r@ == tool_word(f),
{
    match f {
        Family::V4 => "iptables",
        Family::V6 => "ip6tables",
    }
}

impl RuleOperation {
    /// The operation as the words of its command line.
    pub fn words(&self) -> (r: Vec<String>)
        ensures
            words_view(r@) == op_words(self@),
    {
        let mut v: Vec<String> = Vec::new();
        match self {
            RuleOperation::SetPolicy { family, chain, policy } => {
                push_word(&mut v, tool_text(*family));
                push_word(&mut v, "-P");
                push_word(&mut v, chain_text(*chain));
                match policy {
                    Policy::Accept => push_word(&mut v, "ACCEPT"),
                    Policy::Drop => push_word(&mut v, "DROP"),
                }
                assert(words_view(v@) =~= op_words(self@));
            },
            RuleOperation::Append { family, table, chain, criteria, target } => {
                push_word(&mut v, tool_text(*family));
                push_table(&mut v, *table);
                push_word(&mut v, "-A");
                push_word(&mut v, chain_text(*chain));
                let ghost head = words_view(v@);
                let ghost cs = criteria_view(criteria@);
                let mut i: usize = 0;
                while i < criteria.len()
                    invariant
                        i <= criteria@.len(),
                        cs == criteria_view(criteria@),
                        words_view(v@) == head + criteria_words(cs.subrange(0, i as int)),
                    decreases criteria.len() - i,
                {
                    assert(cs.subrange(0, i + 1).drop_last() =~= cs.subrange(0, i as int));
                    push_criterion(&mut v, &criteria[i]);
                    assert(head + criteria_words(cs.subrange(0, i as int)) + criterion_words(
                        cs[i as int],
                    ) =~= head + criteria_words(cs.subrange(0, i + 1)));
                    i = i + 1;
                }
                assert(cs.subrange(0, criteria@.len() as int) == cs);
                push_word(&mut v, "-j");
                push_target(&mut v, target);
                assert(words_view(v@) =~= op_words(self@));
            },
            RuleOperation::Flush { family, table } => {
                push_word(&mut v, tool_text(*family));
                push_table(&mut v, *table);
                push_word(&mut v, "-F");
                assert(words_view(v@) =~= op_words(self@));
            },
            RuleOperation::DeleteChains { family, table } => {
                push_word(&mut v, tool_text(*family));
                push_table(&mut v, *table);
                push_word(&mut v, "-X");
                assert(words_view(v@) =~= op_words(self@));
            },
        }
        v
    }
}

/// The command lines of a batch, in its order.
pub open spec fn batch_words(ops: Seq<OperationView>) -> Seq<Seq<Seq<char>>> {
    ops.map_values(|o: OperationView| op_words(o))
}

/// Builds the batches that move the firewall between its two postures.
pub struct IptablesManager;

impl IptablesManager {
    /// Nothing is saved before the protected posture is applied: leaving it
    /// goes through the open posture, which flushes what was added.
    pub fn backup_rules() -> (r: Result<(), ()>)
        ensures
            r is Ok,
    {
        Ok(())
    }

    /// The batch that applies the protected posture for the proxy's user and
    /// its DNS and transparent ports.
    pub fn apply_rules(tor_uid: &str, dns_port: &str, trans_port: &str) -> (r: Vec<RuleOperation>)
        ensures
            ops_view(r@) == protected_batch(tor_uid@, dns_port@, trans_port@),
    {
        let mut b: Vec<RuleOperation> = Vec::new();
        b.push(policy_op(Family::V4, Chain::Input, Policy::Drop));
        b.push(policy_op(Family::V4, Chain::Forward, Policy::Drop));
        b.push(policy_op(Family::V4, Chain::Output, Policy::Drop));
        b.push(append_op(Table::Filter, Chain::Input, criteria1(Criterion::InLoopback), Target::Accept));
        b.push(
            append_op(Table::Filter, Chain::Output, criteria1(Criterion::OutLoopback), Target::Accept),
        );
        b.push(
            append_op(
                Table::Filter,
                Chain::Input,
                criteria1(Criterion::EstablishedRelated),
                Target::Accept,
            ),
        );
        b.push(
            append_op(
                Table::Nat,
                Chain::Output,
                criteria2(Criterion::Protocol(Protocol::Udp), Criterion::DestPort(owned("53"))),
                Target::Redirect(owned(dns_port)),
            ),
        );
        b.push(
            append_op(
                Table::Filter,
                Chain::Output,
                criteria1(Criterion::UidOwner(owned(tor_uid))),
                Target::Accept,
            ),
        );
        b.push(
            append_op(
                Table::Nat,
                Chain::Output,
                criteria2(Criterion::Protocol(Protocol::Tcp), Criterion::UidOwner(owned(tor_uid))),
                Target::Return,
            ),
        );
        b.push(append_op(Table::Nat, Chain::Output, criteria1(Criterion::OutLoopback), Target::Return));
        b.push(
            append_op(
                Table::Nat,
                Chain::Output,
                criteria2(Criterion::Protocol(Protocol::Tcp), Criterion::TcpSyn),
                Target::Redirect(owned(trans_port)),
            ),
        );
        b.push(
            append_op(
                Table::Filter,
                Chain::Output,
                criteria3(Criterion::DestLocalhost, Criterion::Protocol(Protocol::Tcp), Criterion::DestPort(owned(trans_port))),
                Target::Accept,
            ),
        );
        b.push(
            append_op(
                Table::Filter,
                Chain::Output,
                criteria3(Criterion::DestLocalhost, Criterion::Protocol(Protocol::Udp), Criterion::DestPort(owned(dns_port))),
                Target::Accept,
            ),
        );
        b.push(policy_op(Family::V6, Chain::Input, Policy::Drop));
        b.push(policy_op(Family::V6, Chain::Output, Policy::Drop));
        b.push(policy_op(Family::V6, Chain::Forward, Policy::Drop));
        assert(ops_view(b@) =~= protected_batch(tor_uid@, dns_port@, trans_port@));
        b
    }

    /// The command lines of a batch, one per operation, in order.
    pub fn render(batch: &Vec<RuleOperation>) -> (r: Vec<Vec<String>>)
        ensures
            commands_view(r@) == batch_words(ops_view(batch@)),
    {
        let mut out: Vec<Vec<String>> = Vec::new();
        let mut i: usize = 0;
        while i < batch.len()
            invariant
                i <= batch@.len(),
                out@.len() == i,
                forall|k: int| 0 <= k < i ==> words_view((#[trigger] out@[k])@) == op_words(batch@[k]@),
            decreases batch.len() - i,
        {
            out.push(batch[i].words());
            i = i + 1;
        }
        assert(commands_view(out@) =~= batch_words(ops_view(batch@)));
        out
    }

    /// The batch that restores the open posture.
    pub fn flush_rules() -> (r: Vec<RuleOperation>)
        ensures
            ops_view(r@) == open_batch(),
    {
        let mut b: Vec<RuleOperation> = Vec::new();
        b.push(policy_op(Family::V4, Chain::Input, Policy::Accept));
        b.push(policy_op(Family::V4, Chain::Output, Policy::Accept));
        b.push(policy_op(Family::V4, Chain::Forward, Policy::Accept));
        b.push(RuleOperation::Flush { family: Family::V4, table: Table::Nat });
        b.push(RuleOperation::DeleteChains { family: Family::V4, table: Table::Nat });
        b.push(RuleOperation::Flush { family: Family::V4, table: Table::Filter });
        b.push(RuleOperation::DeleteChains { family: Family::V4, table: Table::Filter });
        b.push(policy_op(Family::V6, Chain::Input, Policy::Accept));
        b.push(policy_op(Family::V6, Chain::Output, Policy::Accept));
        b.push(policy_op(Family::V6, Chain::Forward, Policy::Accept));
        b.push(RuleOperation::Flush { family: Family::V6, table: Table::Filter });
        assert(ops_view(b@) =~= open_batch());
        b
    }
}

/// The packet filters' state as a batch changes it: each base chain's policy,
/// and the rules of each table. User-defined chains are not modelled: no batch
/// here creates one, so removing them changes nothing.
pub struct FirewallState {
    pub policies: Map<(Family, Chain), Policy>,
    pub rules: Map<(Family, Table), Seq<OperationView>>,
}

pub open spec fn table_rules(s: FirewallState, f: Family, t: Table) -> Seq<OperationView> {
    if s.rules.contains_key((f, t)) {
        s.rules[(f, t)]
    } else {
        Seq::empty()
    }
}

/// The state after one operation succeeded.
pub open spec fn run_op(s: FirewallState, o: OperationView) -> FirewallState {
    match o {
        OperationView::SetPolicy { family, chain, policy } => FirewallState {
            policies: s.policies.insert((family, chain), policy),
            rules: s.rules,
        },
        OperationView::Append { family, table, .. } => FirewallState {
            policies: s.policies,
            rules: s.rules.insert((family, table), table_rules(s, family, table).push(o)),
        },
        OperationView::Flush { family, table } => FirewallState {
            policies: s.policies,
            rules: s.rules.insert((family, table), Seq::empty()),
        },
        OperationView::DeleteChains { .. } => s,
    }
}

/// The state after the first `n` operations succeeded.
pub open spec fn run_prefix(s: FirewallState, ops: Seq<OperationView>, n: nat) -> FirewallState
    decreases n,
{
    if n == 0 {
        s
    } else {
        run_op(run_prefix(s, ops, (n - 1) as nat), ops[n - 1])
    }
}

/// The state after a whole batch succeeded.
pub open spec fn run_batch(s: FirewallState, ops: Seq<OperationView>) -> FirewallState {
    run_prefix(s, ops, ops.len())
}

/// Every base chain of both families has the policy `p`.
pub open spec fn all_policies(s: FirewallState, p: Policy) -> bool {
    forall|f: Family, c: Chain| #[trigger] s.policies.contains_key((f, c)) && s.policies[(f, c)] == p
}

pub open spec fn with_all_policies(m: Map<(Family, Chain), Policy>, p: Policy) -> Map<
    (Family, Chain),
    Policy,
> {
    m.insert((Family::V4, Chain::Input), p).insert((Family::V4, Chain::Forward), p).insert(
        (Family::V4, Chain::Output),
        p,
    ).insert((Family::V6, Chain::Input), p).insert((Family::V6, Chain::Forward), p).insert(
        (Family::V6, Chain::Output),
        p,
    )
}

proof fn lemma_open_batch_effect(s: FirewallState)
    ensures
        run_batch(s, open_batch()).policies == with_all_policies(s.policies, Policy::Accept),
        run_batch(s, open_batch()).rules == s.rules.insert((Family::V4, Table::Nat), Seq::empty()).insert(
            (Family::V4, Table::Filter),
            Seq::empty(),
        ).insert((Family::V6, Table::Filter), Seq::empty()),
{
    reveal_with_fuel(run_prefix, 12);
    let r = run_batch(s, open_batch());
    assert(r.policies =~= with_all_policies(s.policies, Policy::Accept));
    assert(r.rules =~= s.rules.insert((Family::V4, Table::Nat), Seq::empty()).insert(
        (Family::V4, Table::Filter),
        Seq::empty(),
    ).insert((Family::V6, Table::Filter), Seq::empty()));
}

proof fn lemma_protected_batch_policies(
    s: FirewallState,
    user: Seq<char>,
    dns_port: Seq<char>,
    trans_port: Seq<char>,
)
    ensures
        run_batch(s, protected_batch(user, dns_port, trans_port)).policies == with_all_policies(
            s.policies,
            Policy::Drop,
        ),
{
    reveal_with_fuel(run_prefix, 17);
    let r = run_batch(s, protected_batch(user, dns_port, trans_port));
    assert(r.policies =~= with_all_policies(s.policies, Policy::Drop));
}

/// Restoring the open posture leaves every base chain accepting, and doing it
/// a second time changes nothing.
pub proof fn lemma_open_posture_idempotent(s: FirewallState)
    ensures
        all_policies(run_batch(s, open_batch()), Policy::Accept),
        run_batch(run_batch(s, open_batch()), open_batch()) == run_batch(s, open_batch()),
        all_policies(run_batch(run_batch(s, open_batch()), open_batch()), Policy::Accept),
{
    let once = run_batch(s, open_batch());
    lemma_open_batch_effect(s);
    lemma_open_batch_effect(once);
    let twice = run_batch(once, open_batch());
    assert(twice.policies =~= once.policies);
    assert(twice.rules =~= once.rules);
    assert forall|f: Family, c: Chain| #[trigger] once.policies.contains_key((f, c)) && once.policies[(f, c)] == Policy::Accept by {
        match f {
            Family::V4 => {},
            Family::V6 => {},
        }
        match c {
            Chain::Input => {},
            Chain::Forward => {},
            Chain::Output => {},
        }
    }
}

/// From an open posture, applying the protected posture and then restoring
/// the open one leaves every chain policy as it was, whatever the user and ports.
pub proof fn lemma_round_trip_restores_policies(
    s: FirewallState,
    user: Seq<char>,
    dns_port: Seq<char>,
    trans_port: Seq<char>,
)
    requires
        all_policies(s, Policy::Accept),
    ensures
        run_batch(run_batch(s, protected_batch(user, dns_port, trans_port)), open_batch()).policies
            == s.policies,
{
    let mid = run_batch(s, protected_batch(user, dns_port, trans_port));
    lemma_protected_batch_policies(s, user, dns_port, trans_port);
    lemma_open_batch_effect(mid);
    let end = run_batch(mid, open_batch());
    assert(s.policies.contains_key((Family::V4, Chain::Input)));
    assert(s.policies.contains_key((Family::V4, Chain::Forward)));
    assert(s.policies.contains_key((Family::V4, Chain::Output)));
    assert(s.policies.contains_key((Family::V6, Chain::Input)));
    assert(s.policies.contains_key((Family::V6, Chain::Forward)));
    assert(s.policies.contains_key((Family::V6, Chain::Output)));
    assert(end.policies =~= s.policies);
}

/// Every word of the open posture's commands is one the shell takes
/// literally, so its script carries each word unquoted, as written.
pub proof fn lemma_open_batch_renders()
    ensures
        all_safe(batch_words(open_batch())),
{
    reveal_strlit("iptables");
    reveal_strlit("ip6tables");
    reveal_strlit("-P");
    reveal_strlit("INPUT");
    reveal_strlit("OUTPUT");
    reveal_strlit("FORWARD");
    reveal_strlit("ACCEPT");
    reveal_strlit("-t");
    reveal_strlit("nat");
    reveal_strlit("-F");
    reveal_strlit("-X");
    let w = batch_words(open_batch());
    assert forall|i: int, j: int| 0 <= i < w.len() && 0 <= j < w[i].len() implies safe_word(
        #[trigger] w[i][j],
    ) by {
        assert(0 <= i < 11);
    }
}
} // verus!
