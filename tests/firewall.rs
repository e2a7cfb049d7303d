use aegis_shield::{batch_script, quote_word, Anonsurf, Criterion, IptablesManager, RuleOperation, Target};

fn lines(batch: &Vec<RuleOperation>) -> Vec<String> {
    IptablesManager::render(batch).iter().map(|c| c.join(" ")).collect()
}

#[test]
fn protected_posture_has_the_eight_stages_in_order() {
    let batch = IptablesManager::apply_rules("proxyuser", "5353", "9040");
    let expected = vec![
        "iptables -P INPUT DROP",
        "iptables -P FORWARD DROP",
        "iptables -P OUTPUT DROP",
        "iptables -A INPUT -i lo -j ACCEPT",
        "iptables -A OUTPUT -o lo -j ACCEPT",
        "iptables -A INPUT -m state --state ESTABLISHED,RELATED -j ACCEPT",
        "iptables -t nat -A OUTPUT -p udp --dport 53 -j REDIRECT --to-ports 5353",
        "iptables -A OUTPUT -m owner --uid-owner proxyuser -j ACCEPT",
        "iptables -t nat -A OUTPUT -p tcp -m owner --uid-owner proxyuser -j RETURN",
        "iptables -t nat -A OUTPUT -o lo -j RETURN",
        "iptables -t nat -A OUTPUT -p tcp --syn -j REDIRECT --to-ports 9040",
        "iptables -A OUTPUT -d 127.0.0.1/32 -p tcp --dport 9040 -j ACCEPT",
        "iptables -A OUTPUT -d 127.0.0.1/32 -p udp --dport 5353 -j ACCEPT",
        "ip6tables -P INPUT DROP",
        "ip6tables -P OUTPUT DROP",
        "ip6tables -P FORWARD DROP",
    ];
    assert_eq!(lines(&batch), expected);
}

#[test]
fn protected_posture_substitutes_parameters_verbatim() {
    let batch = IptablesManager::apply_rules("tor-user_2", "1053", "19040");
    let l = lines(&batch);
    assert_eq!(l.len(), 16);
    assert!(l[6].ends_with("--to-ports 1053"));
    assert!(l[7].contains("--uid-owner tor-user_2"));
    assert!(l[8].contains("--uid-owner tor-user_2"));
    assert!(l[10].ends_with("--to-ports 19040"));
    assert!(l[11].contains("--dport 19040"));
    assert!(l[12].contains("--dport 1053"));
}

#[test]
fn protected_posture_is_structured() {
    let batch = IptablesManager::apply_rules("u", "1", "2");
    match &batch[7] {
        RuleOperation::Append { criteria, target, .. } => {
            assert_eq!(criteria.len(), 1);
            assert!(matches!(&criteria[0], Criterion::UidOwner(u) if u == "u"));
            assert!(matches!(target, Target::Accept));
        }
        _ => panic!("stage five must append a rule"),
    }
}

#[test]
fn open_posture_restores_accept_and_flushes() {
    let batch = IptablesManager::flush_rules();
    let expected = vec![
        "iptables -P INPUT ACCEPT",
        "iptables -P OUTPUT ACCEPT",
        "iptables -P FORWARD ACCEPT",
        "iptables -t nat -F",
        "iptables -t nat -X",
        "iptables -F",
        "iptables -X",
        "ip6tables -P INPUT ACCEPT",
        "ip6tables -P OUTPUT ACCEPT",
        "ip6tables -P FORWARD ACCEPT",
        "ip6tables -F",
    ];
    assert_eq!(lines(&batch), expected);
}

#[test]
fn open_posture_twice_is_the_same_batch() {
    let first = lines(&IptablesManager::flush_rules());
    let second = lines(&IptablesManager::flush_rules());
    assert_eq!(first, second);
    assert!(first.iter().filter(|l| l.contains(" -P ")).all(|l| l.ends_with("ACCEPT")));
}

#[test]
fn round_trip_sets_every_policy_back_to_accept() {
    let apply = lines(&IptablesManager::apply_rules("proxyuser", "5353", "9040"));
    let restore = lines(&IptablesManager::flush_rules());
    for tool in ["iptables", "ip6tables"] {
        for chain in ["INPUT", "FORWARD", "OUTPUT"] {
            let drop = format!("{} -P {} DROP", tool, chain);
            let accept = format!("{} -P {} ACCEPT", tool, chain);
            assert!(apply.contains(&drop));
            assert!(restore.contains(&accept));
        }
    }
}

#[test]
fn batch_script_joins_commands_with_and() {
    let batch = IptablesManager::flush_rules();
    let script = batch_script(&IptablesManager::render(&batch));
    assert!(script.starts_with("iptables -P INPUT ACCEPT && iptables -P OUTPUT ACCEPT && "));
    assert!(script.ends_with(" && ip6tables -F"));
    assert_eq!(script.matches(" && ").count(), 10);
}

#[test]
fn batch_script_quotes_shell_metacharacters() {
    let batch = IptablesManager::apply_rules("proxy; rm -rf /", "5353", "9040");
    let script = batch_script(&IptablesManager::render(&batch));
    assert!(script.contains(" && iptables -A OUTPUT -m owner --uid-owner 'proxy; rm -rf /' -j ACCEPT && "));
    let batch = IptablesManager::apply_rules("", "5353", "9040");
    let script = batch_script(&IptablesManager::render(&batch));
    assert!(script.contains("--uid-owner '' -j ACCEPT"));
}

#[test]
fn quoting_keeps_every_word_verbatim() {
    assert_eq!(quote_word("debian-tor"), "debian-tor");
    assert_eq!(quote_word("svc$user"), "'svc$user'");
    assert_eq!(quote_word("it's"), "'it'\\''s'");
    assert_eq!(quote_word(""), "''");
}

#[test]
fn batch_script_of_nothing_is_empty() {
    assert_eq!(batch_script(&Vec::new()), String::new());
}

#[test]
fn backup_rules_succeeds() {
    assert_eq!(IptablesManager::backup_rules(), Ok(()));
}

#[test]
fn anonsurf_uses_the_proxy_defaults() {
    let l = lines(&Anonsurf::start());
    assert!(l[7].contains("--uid-owner debian-tor"));
    assert!(l[6].ends_with("--to-ports 5353"));
    assert!(l[10].ends_with("--to-ports 9040"));
    assert_eq!(lines(&Anonsurf::stop()), lines(&IptablesManager::flush_rules()));
}
