use romeo::evaluate::{accepts, decide, evaluate, folded_rules};
use romeo::{Decision, MethodFilter, ProxyConfig, ProxyRule, RuleAction};

fn rule(method: MethodFilter, action: RuleAction, path: &str) -> ProxyRule {
    ProxyRule { action, path: path.to_string(), method }
}

const FILTERS: [(MethodFilter, &str); 9] = [
    (MethodFilter::Get, "GET"),
    (MethodFilter::Head, "HEAD"),
    (MethodFilter::Post, "POST"),
    (MethodFilter::Put, "PUT"),
    (MethodFilter::Delete, "DELETE"),
    (MethodFilter::Connect, "CONNECT"),
    (MethodFilter::Options, "OPTIONS"),
    (MethodFilter::Trace, "TRACE"),
    (MethodFilter::Patch, "PATCH"),
];

#[test]
fn no_rules_allow() {
    assert_eq!(evaluate(&vec![], "GET", "/"), Decision::Allow);
    assert_eq!(decide(&vec![], "GET", "/"), Decision::Allow);
}

#[test]
fn unmatched_request_is_allowed() {
    let rules = vec![
        rule(MethodFilter::All, RuleAction::Block, "/a"),
        rule(MethodFilter::Post, RuleAction::Block, "/b"),
        rule(MethodFilter::Get, RuleAction::Pass, "/c"),
    ];
    assert_eq!(evaluate(&rules, "GET", "/b"), Decision::Allow);
    assert_eq!(evaluate(&rules, "GET", "/d"), Decision::Allow);
    assert_eq!(evaluate(&rules, "POST", "/c"), Decision::Allow);
}

#[test]
fn block_for_all_methods_blocks_every_method() {
    let rules = vec![rule(MethodFilter::All, RuleAction::Block, "/test.html")];
    for (_, name) in FILTERS {
        assert_eq!(evaluate(&rules, name, "/test.html"), Decision::Block);
    }
    assert_eq!(evaluate(&rules, "BREW", "/test.html"), Decision::Block);
    assert_eq!(evaluate(&rules, "GET", "/other.html"), Decision::Allow);
}

#[test]
fn block_for_all_methods_beats_later_rules() {
    let rules = vec![
        rule(MethodFilter::All, RuleAction::Pass, "/x"),
        rule(MethodFilter::All, RuleAction::Pass, "/y"),
        rule(MethodFilter::All, RuleAction::Block, "/x"),
        rule(MethodFilter::Get, RuleAction::Pass, "/x"),
        rule(MethodFilter::All, RuleAction::Pass, "/x"),
    ];
    assert_eq!(evaluate(&rules, "GET", "/x"), Decision::Block);
    assert_eq!(evaluate(&rules, "DELETE", "/x"), Decision::Block);
    assert_eq!(evaluate(&rules, "GET", "/y"), Decision::Allow);
}

#[test]
fn pass_for_all_methods_continues() {
    let rules = vec![
        rule(MethodFilter::All, RuleAction::Pass, "/x"),
        rule(MethodFilter::Get, RuleAction::Pass, "/x"),
    ];
    assert_eq!(evaluate(&rules, "GET", "/x"), Decision::Allow);
    let rules = vec![
        rule(MethodFilter::All, RuleAction::Pass, "/x"),
        rule(MethodFilter::Get, RuleAction::Block, "/x"),
    ];
    assert_eq!(evaluate(&rules, "GET", "/x"), Decision::Block);
    assert_eq!(evaluate(&rules, "POST", "/x"), Decision::Allow);
}

#[test]
fn pass_for_a_specific_method_halts() {
    let rules = vec![
        rule(MethodFilter::Get, RuleAction::Pass, "/x"),
        rule(MethodFilter::All, RuleAction::Block, "/x"),
    ];
    assert_eq!(evaluate(&rules, "GET", "/x"), Decision::Allow);
    assert_eq!(evaluate(&rules, "POST", "/x"), Decision::Block);
}

#[test]
fn pass_halts_for_each_specific_method() {
    for (filter, name) in FILTERS {
        let rules = vec![
            rule(filter, RuleAction::Pass, "/x"),
            rule(MethodFilter::All, RuleAction::Block, "/x"),
        ];
        assert_eq!(evaluate(&rules, name, "/x"), Decision::Allow);
        assert_eq!(evaluate(&rules, "OTHER", "/x"), Decision::Block);
    }
}

#[test]
fn block_for_each_specific_method() {
    for (filter, name) in FILTERS {
        let rules = vec![rule(filter, RuleAction::Block, "/x")];
        assert_eq!(evaluate(&rules, name, "/x"), Decision::Block);
        assert_eq!(evaluate(&rules, &name.to_lowercase(), "/x"), Decision::Block);
        assert_eq!(evaluate(&rules, "OTHER", "/x"), Decision::Allow);
        assert_eq!(evaluate(&rules, name, "/y"), Decision::Allow);
    }
}

#[test]
fn first_settling_rule_wins() {
    let rules = vec![
        rule(MethodFilter::Get, RuleAction::Block, "/x"),
        rule(MethodFilter::Get, RuleAction::Pass, "/x"),
    ];
    assert_eq!(evaluate(&rules, "GET", "/x"), Decision::Block);
    let rules = vec![
        rule(MethodFilter::Get, RuleAction::Pass, "/x"),
        rule(MethodFilter::Get, RuleAction::Block, "/x"),
    ];
    assert_eq!(evaluate(&rules, "GET", "/x"), Decision::Allow);
}

#[test]
fn path_case_is_ignored() {
    let rules = vec![rule(MethodFilter::All, RuleAction::Block, "/Test.html")];
    assert_eq!(evaluate(&rules, "GET", "/test.html"), Decision::Block);
    assert_eq!(evaluate(&rules, "GET", "/TEST.HTML"), Decision::Block);
    assert_eq!(evaluate(&rules, "GET", "/test.htm"), Decision::Allow);
}

#[test]
fn path_case_is_ignored_beyond_ascii() {
    let rules = vec![rule(MethodFilter::All, RuleAction::Block, "/caf\u{c9}")];
    assert_eq!(evaluate(&rules, "GET", "/CAF\u{e9}"), Decision::Block);
}

#[test]
fn method_case_is_ignored() {
    let rules = vec![rule(MethodFilter::Get, RuleAction::Block, "/x")];
    assert_eq!(evaluate(&rules, "get", "/x"), Decision::Block);
    assert_eq!(evaluate(&rules, "Get", "/x"), Decision::Block);
    assert_eq!(evaluate(&rules, "post", "/x"), Decision::Allow);
}

#[test]
fn paths_match_exactly_not_by_prefix() {
    let rules = vec![rule(MethodFilter::All, RuleAction::Block, "/a")];
    assert_eq!(evaluate(&rules, "GET", "/a/b"), Decision::Allow);
    assert_eq!(evaluate(&rules, "GET", "/a?x=1"), Decision::Allow);
    assert_eq!(evaluate(&rules, "GET", "/"), Decision::Allow);
    assert_eq!(evaluate(&rules, "GET", "/a"), Decision::Block);
}

#[test]
fn decide_compares_exactly() {
    let rules = vec![rule(MethodFilter::Get, RuleAction::Block, "/x")];
    assert_eq!(decide(&rules, "GET", "/x"), Decision::Block);
    assert_eq!(decide(&rules, "get", "/x"), Decision::Allow);
    assert_eq!(decide(&rules, "GET", "/X"), Decision::Allow);
}

#[test]
fn accepts_own_name_only() {
    for (filter, name) in FILTERS {
        assert!(accepts(filter, name));
        assert!(!accepts(filter, &name.to_lowercase()));
        assert!(!accepts(filter, ""));
        assert!(accepts(MethodFilter::All, name));
        for (_, other) in FILTERS {
            assert_eq!(accepts(filter, other), name == other);
        }
    }
    assert!(accepts(MethodFilter::All, ""));
}

#[test]
fn judge_settles_by_action_and_filter() {
    let block = rule(MethodFilter::All, RuleAction::Block, "/x");
    assert_eq!(block.judge("ANY", "/x"), Some(Decision::Block));
    assert_eq!(block.judge("ANY", "/y"), None);
    let pass_all = rule(MethodFilter::All, RuleAction::Pass, "/x");
    assert_eq!(pass_all.judge("GET", "/x"), None);
    let pass_get = rule(MethodFilter::Get, RuleAction::Pass, "/x");
    assert_eq!(pass_get.judge("GET", "/x"), Some(Decision::Allow));
    assert_eq!(pass_get.judge("PUT", "/x"), None);
}

#[test]
fn folded_rules_keep_order_and_lower_the_paths() {
    let rules = vec![
        rule(MethodFilter::Get, RuleAction::Pass, "/A"),
        rule(MethodFilter::All, RuleAction::Block, "/b/C.html"),
    ];
    let folded = folded_rules(&rules);
    assert_eq!(folded.len(), 2);
    assert_eq!(folded[0].path, "/a");
    assert_eq!(folded[0].method, MethodFilter::Get);
    assert_eq!(folded[0].action, RuleAction::Pass);
    assert_eq!(folded[1].path, "/b/c.html");
    assert_eq!(folded[1].method, MethodFilter::All);
    assert_eq!(folded[1].action, RuleAction::Block);
    assert_eq!(rules[0].folded().path, "/a");
}

#[test]
fn defaults() {
    assert_eq!(RuleAction::default(), RuleAction::Block);
    assert_eq!(MethodFilter::default(), MethodFilter::All);
    let rule = ProxyRule::default();
    assert_eq!(rule.action, RuleAction::Block);
    assert_eq!(rule.method, MethodFilter::All);
    assert_eq!(rule.path, "");
    let config = ProxyConfig::default();
    assert_eq!(config.listening_port, 0);
    assert_eq!(config.destination, "");
    assert_eq!(config.destination_port, 0);
    assert!(config.rules.is_empty());
}
