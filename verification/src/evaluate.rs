//! The rule evaluator: an ordered walk over the rules that stops at the first rule
//! that settles the request.
//!
//! A rule that blocks settles every request it matches. A rule that passes settles
//! the requests it matches only when it names a specific method; a passing rule for
//! all methods leaves the request to the rules after it.

use vstd::prelude::*;
use crate::rules::{rule_models, Decision, MethodFilter, ProxyRule, RuleAction, RuleModel};
use crate::text::{lowercase, same_text, to_lowercase, to_uppercase, uppercase};

verus! {

/// The method name that a filter stands for, in upper case. `All` names no method.
pub open spec fn method_token(filter: MethodFilter) -> Seq<char> {
    match filter {
        MethodFilter::All => Seq::<char>::empty(),
        MethodFilter::Get => "GET"@,
        MethodFilter::Head => "HEAD"@,
        MethodFilter::Post => "POST"@,
        MethodFilter::Put => "PUT"@,
        MethodFilter::Delete => "DELETE"@,
        MethodFilter::Connect => "CONNECT"@,
        MethodFilter::Options => "OPTIONS"@,
        MethodFilter::Trace => "TRACE"@,
        MethodFilter::Patch => "PATCH"@,
    }
}

/// Whether a filter lets a method through: `All` lets every method through, any
/// other filter only its own name.
pub open spec fn filter_accepts(filter: MethodFilter, method: Seq<char>) -> bool {
    filter is All || method == method_token(filter)
}

/// Whether a rule matches a request: the filter accepts the method and the paths
/// are equal, character for character.
pub open spec fn hits(rule: RuleModel, method: Seq<char>, path: Seq<char>) -> bool {
    filter_accepts(rule.method, method) && rule.path == path
}

/// Whether a matching rule with this filter and the action `Pass` ends the walk.
pub open spec fn halts_on_pass(filter: MethodFilter) -> bool {
    !(filter is All)
}

/// What one rule settles: nothing when it does not match, or when it passes for
/// all methods; otherwise the decision that its action stands for.
pub open spec fn rule_outcome(rule: RuleModel, method: Seq<char>, path: Seq<char>) -> Option<
    Decision,
> {
    if !hits(rule, method, path) {
        None
    } else {
        match rule.action {
            RuleAction::Block => Some(Decision::Block),
            RuleAction::Pass => if halts_on_pass(rule.method) {
                Some(Decision::Allow)
            } else {
                None
            },
        }
    }
}

/// What the first settling rule settles, or `None` when no rule settles anything.
pub open spec fn outcome(rules: Seq<RuleModel>, method: Seq<char>, path: Seq<char>) -> Option<
    Decision,
>
    decreases rules.len(),
{
    if rules.len() == 0 {
        None
    } else {
        match rule_outcome(rules[0], method, path) {
            Some(decision) => Some(decision),
            None => outcome(rules.drop_first(), method, path),
        }
    }
}

/// The decision on a request: what the walk settles, and `Allow` when it settles
/// nothing.
pub open spec fn verdict(rules: Seq<RuleModel>, method: Seq<char>, path: Seq<char>) -> Decision {
    match outcome(rules, method, path) {
        Some(decision) => decision,
        None => Decision::Allow,
    }
}

/// A rule with its path in lower case.
pub open spec fn fold_rule(rule: RuleModel) -> RuleModel {
    RuleModel { action: rule.action, path: lowercase(rule.path), method: rule.method }
}

/// The rules with their paths in lower case, in the same order.
pub open spec fn fold_rules(rules: Seq<RuleModel>) -> Seq<RuleModel> {
    Seq::new(rules.len(), |i: int| fold_rule(rules[i]))
}

/// The decision on a request when method and path are compared without regard to
/// case: the method in upper case against the filter's name, the path in lower case
/// against the rule's path in lower case.
pub open spec fn folded_verdict(rules: Seq<RuleModel>, method: Seq<char>, path: Seq<char>) -> Decision {
    verdict(fold_rules(rules), uppercase(method), lowercase(path))
}

/// Tells whether `filter` accepts `method`, compared exactly.
pub fn accepts(filter: MethodFilter, method: &str) -> (accepted: bool)
    ensures
        accepted == filter_accepts(filter, method@),
{
    match filter {
        MethodFilter::All => true,
        MethodFilter::Get => same_text(method, "GET"),
        MethodFilter::Head => same_text(method, "HEAD"),
        MethodFilter::Post => same_text(method, "POST"),
        MethodFilter::Put => same_text(method, "PUT"),
        MethodFilter::Delete => same_text(method, "DELETE"),
        MethodFilter::Connect => same_text(method, "CONNECT"),
        MethodFilter::Options => same_text(method, "OPTIONS"),
        MethodFilter::Trace => same_text(method, "TRACE"),
        MethodFilter::Patch => same_text(method, "PATCH"),
    }
}

impl ProxyRule {
    /// What this rule settles for a request, method and path compared exactly.
    pub fn judge(&self, method: &str, path: &str) -> (settled: Option<Decision>)
        ensures
            settled == rule_outcome(self@, method@, path@),
    {
        if accepts(self.method, method) && same_text(self.path.as_str(), path) {
            match self.action {
                RuleAction::Block => Some(Decision::Block),
                RuleAction::Pass => match self.method {
                    MethodFilter::All => None,
                    _ => Some(Decision::Allow),
                },
            }
        } else {
            None
        }
    }

    /// This rule with its path in lower case.
    pub fn folded(&self) -> (rule: ProxyRule)
        ensures
            rule@ == fold_rule(self@),
    {
        ProxyRule {
            action: self.action,
            path: to_lowercase(self.path.as_str()),
            method: self.method,
        }
    }
}

/// Dropping the first `i` rules and then one more drops the first `i + 1`.
proof fn lemma_skip_step(rules: Seq<RuleModel>, i: int)
    requires
        0 <= i < rules.len(),
    ensures
        rules.skip(i).drop_first() == rules.skip(i + 1),
        rules.skip(i)[0] == rules[i],
{
    assert(rules.skip(i).drop_first() =~= rules.skip(i + 1));
}

/// Judges a request against the rules in order, method and path compared exactly.
pub fn decide(rules: &Vec<ProxyRule>, method: &str, path: &str) -> (decision: Decision)
    ensures
        decision == verdict(rule_models(rules@), method@, path@),
{
    let ghost models = rule_models(rules@);
    let mut i: usize = 0;
    proof {
        assert(models.skip(0) =~= models);
    }
    while i < rules.len()
        invariant
            i <= rules.len(),
            models == rule_models(rules@),
            outcome(models, method@, path@) == outcome(models.skip(i as int), method@, path@),
        decreases rules.len() - i,
    {
        proof {
            lemma_skip_step(models, i as int);
        }
        match rules[i].judge(method, path) {
            Some(decision) => {
                return decision;
            },
            None => {},
        }
        i += 1;
    }
    Decision::Allow
}

/// The rules with their paths in lower case, in the same order.
pub fn folded_rules(rules: &Vec<ProxyRule>) -> (folded: Vec<ProxyRule>)
    ensures
        rule_models(folded@) == fold_rules(rule_models(rules@)),
{
    let mut folded: Vec<ProxyRule> = Vec::new();
    let mut i: usize = 0;
    while i < rules.len()
        invariant
            i <= rules.len(),
            folded@.len() == i,
            forall|j: int| 0 <= j < i ==> (#[trigger] folded@[j])@ == fold_rule(rules@[j]@),
        decreases rules.len() - i,
    {
        folded.push(rules[i].folded());
        i += 1;
    }
    proof {
        assert(rule_models(folded@) =~= fold_rules(rule_models(rules@)));
    }
    folded
}

/// Judges a request against the rules in order, method and path compared without
/// regard to case.
pub fn evaluate(rules: &Vec<ProxyRule>, method: &str, path: &str) -> (decision: Decision)
    ensures
        decision == folded_verdict(rule_models(rules@), method@, path@),
{
    let folded = folded_rules(rules);
    let method_upper = to_uppercase(method);
    let path_lower = to_lowercase(path);
    decide(&folded, method_upper.as_str(), path_lower.as_str())
}

/// The walk over a list is the walk over its first `i` rules, continued over the
/// rest when those settle nothing.
pub proof fn lemma_outcome_split(rules: Seq<RuleModel>, method: Seq<char>, path: Seq<char>, i: int)
    requires
        0 <= i <= rules.len(),
    ensures
        outcome(rules, method, path) == (match outcome(rules.take(i), method, path) {
            Some(decision) => Some(decision),
            None => outcome(rules.skip(i), method, path),
        }),
    decreases i,
{
    if i == 0 {
        assert(rules.skip(0) =~= rules);
    } else {
        let rest = rules.drop_first();
        assert(rules.take(i)[0] == rules[0]);
        assert(rules.take(i).drop_first() =~= rest.take(i - 1));
        assert(rules.skip(i) =~= rest.skip(i - 1));
        lemma_outcome_split(rest, method, path, i - 1);
    }
}

/// A list of rules none of which settles the request settles nothing.
pub proof fn lemma_outcome_none(rules: Seq<RuleModel>, method: Seq<char>, path: Seq<char>)
    requires
        forall|i: int| 0 <= i < rules.len() ==> rule_outcome(#[trigger] rules[i], method, path) is None,
    ensures
        outcome(rules, method, path) is None,
    decreases rules.len(),
{
    if rules.len() > 0 {
        let rest = rules.drop_first();
        assert forall|i: int| 0 <= i < rest.len() implies rule_outcome(
            #[trigger] rest[i],
            method,
            path,
        ) is None by {
            assert(rest[i] == rules[i + 1]);
        }
        lemma_outcome_none(rest, method, path);
    }
}

/// Whatever a list of rules settles was settled by one of its rules, and no rule
/// before that one settled anything.
pub proof fn lemma_outcome_witness(rules: Seq<RuleModel>, method: Seq<char>, path: Seq<char>) -> (i: int)
    requires
        outcome(rules, method, path) is Some,
    ensures
        0 <= i < rules.len(),
        rule_outcome(rules[i], method, path) == outcome(rules, method, path),
        forall|j: int| 0 <= j < i ==> rule_outcome(#[trigger] rules[j], method, path) is None,
    decreases rules.len(),
{
    if rule_outcome(rules[0], method, path) is Some {
        0
    } else {
        let rest = rules.drop_first();
        let k = lemma_outcome_witness(rest, method, path);
        assert forall|j: int| 0 <= j < k + 1 implies rule_outcome(
            #[trigger] rules[j],
            method,
            path,
        ) is None by {
            if j > 0 {
                assert(rules[j] == rest[j - 1]);
            }
        }
        assert(rules[k + 1] == rest[k]);
        k + 1
    }
}

/// A blocking rule that matches the request blocks it, unless the rules before it
/// have already allowed it: the request is blocked whatever rules come after.
pub proof fn law_matching_block_rule_blocks(
    rules: Seq<RuleModel>,
    method: Seq<char>,
    path: Seq<char>,
    i: int,
)
    requires
        0 <= i < rules.len(),
        rules[i].action is Block,
        hits(rules[i], method, path),
        outcome(rules.take(i), method, path) != Some(Decision::Allow),
    ensures
        verdict(rules, method, path) == Decision::Block,
{
    lemma_outcome_split(rules, method, path, i);
    assert(rules.skip(i)[0] == rules[i]);
}

/// A request is blocked only by a blocking rule that matches it and that the walk
/// reaches: no rule before it settles anything.
pub proof fn law_block_comes_from_a_rule(rules: Seq<RuleModel>, method: Seq<char>, path: Seq<char>) -> (i: int)
    requires
        verdict(rules, method, path) == Decision::Block,
    ensures
        0 <= i < rules.len(),
        rules[i].action is Block,
        hits(rules[i], method, path),
        forall|j: int| 0 <= j < i ==> rule_outcome(#[trigger] rules[j], method, path) is None,
{
    lemma_outcome_witness(rules, method, path)
}

/// A request that no rule matches is allowed.
pub proof fn law_unmatched_request_is_allowed(rules: Seq<RuleModel>, method: Seq<char>, path: Seq<char>)
    requires
        forall|i: int| 0 <= i < rules.len() ==> !hits(#[trigger] rules[i], method, path),
    ensures
        verdict(rules, method, path) == Decision::Allow,
{
    lemma_outcome_none(rules, method, path);
}

/// A blocking rule for all methods blocks every request for its path, whatever
/// the method and whatever rules follow it, provided that the rules before it have
/// not already allowed the request. Passing rules for all methods before it never
/// do so.
pub proof fn law_all_methods_block_wins(
    rules: Seq<RuleModel>,
    method: Seq<char>,
    path: Seq<char>,
    i: int,
)
    requires
        0 <= i < rules.len(),
        rules[i].method is All,
        rules[i].action is Block,
        rules[i].path == path,
        outcome(rules.take(i), method, path) != Some(Decision::Allow),
    ensures
        verdict(rules, method, path) == Decision::Block,
{
    law_matching_block_rule_blocks(rules, method, path, i);
}

/// Rules that pass for all methods settle nothing: a list made of such rules alone
/// leaves every request to what follows.
pub proof fn law_pass_for_all_methods_continues(
    rules: Seq<RuleModel>,
    method: Seq<char>,
    path: Seq<char>,
)
    requires
        forall|i: int|
            0 <= i < rules.len() ==> (#[trigger] rules[i]).method is All && rules[i].action is Pass,
    ensures
        outcome(rules, method, path) is None,
{
    lemma_outcome_none(rules, method, path);
}

/// A passing rule for a specific method that matches the request allows it when no
/// rule before it settles anything: the rules after it are not consulted.
pub proof fn law_specific_pass_halts(
    rules: Seq<RuleModel>,
    method: Seq<char>,
    path: Seq<char>,
    i: int,
)
    requires
        0 <= i < rules.len(),
        rules[i].action is Pass,
        !(rules[i].method is All),
        hits(rules[i], method, path),
        outcome(rules.take(i), method, path) is None,
    ensures
        verdict(rules, method, path) == Decision::Allow,
        verdict(rules, method, path) == verdict(rules.take(i + 1), method, path),
{
    lemma_outcome_split(rules, method, path, i);
    assert(rules.skip(i)[0] == rules[i]);
    let head = rules.take(i + 1);
    lemma_outcome_split(head, method, path, i);
    assert(head.take(i) =~= rules.take(i));
    assert(head.skip(i)[0] == rules[i]);
}

/// Requests whose methods agree in upper case and whose paths agree in lower case
/// are judged alike.
pub proof fn law_case_is_ignored(
    rules: Seq<RuleModel>,
    method: Seq<char>,
    path: Seq<char>,
    other_method: Seq<char>,
    other_path: Seq<char>,
)
    requires
        uppercase(method) == uppercase(other_method),
        lowercase(path) == lowercase(other_path),
    ensures
        folded_verdict(rules, method, path) == folded_verdict(rules, other_method, other_path),
{
}

} // verus!
