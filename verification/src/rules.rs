//! The configuration that a proxy is started with: where to listen, where to relay
//! to, and the ordered rules that requests are judged by.

use vstd::prelude::*;

verus! {

/// What a rule does with a request that it matches.
#[derive(Clone, Copy, Debug, PartialEq, Eq, Structural)]
pub enum RuleAction {
    /// Terminate the connection.
    Block,
    /// Permit forwarding.
    Pass,
}

/// The request methods that a rule can be restricted to.
#[derive(Clone, Copy, Debug, PartialEq, Eq, Structural)]
pub enum MethodFilter {
    /// Any method.
    All,
    Get,
    Head,
    Post,
    Put,
    Delete,
    Connect,
    Options,
    Trace,
    Patch,
}

/// The outcome of judging one request against the rules.
#[derive(Clone, Copy, Debug, PartialEq, Eq, Structural)]
pub enum Decision {
    Allow,
    Block,
}

/// One configured rule: an action for requests with a given path and method.
///
/// The path is stored as it was configured; it is compared without regard to case.
#[derive(Clone, Debug)]
pub struct ProxyRule {
    pub action: RuleAction,
    pub path: String,
    pub method: MethodFilter,
}

/// The mathematical content of a [`ProxyRule`].
pub struct RuleModel {
    pub action: RuleAction,
    pub path: Seq<char>,
    pub method: MethodFilter,
}

impl View for ProxyRule {
    type V = RuleModel;

    open spec fn view(&self) -> RuleModel {
        RuleModel { action: self.action, path: self.path@, method: self.method }
    }
}

/// The models of a list of rules, in the same order.
pub open spec fn rule_models(rules: Seq<ProxyRule>) -> Seq<RuleModel> {
    Seq::new(rules.len(), |i: int| rules[i]@)
}

/// The process-wide configuration. It is built once and only read afterwards.
#[derive(Clone, Debug)]
pub struct ProxyConfig {
    pub listening_port: u16,
    pub destination: String,
    pub destination_port: u16,
    pub rules: Vec<ProxyRule>,
}

impl Default for RuleAction {
    fn default() -> (action: RuleAction)
        ensures
            action == RuleAction::Block,
    {
        RuleAction::Block
    }
}

impl Default for MethodFilter {
    fn default() -> (filter: MethodFilter)
        ensures
            filter == MethodFilter::All,
    {
        MethodFilter::All
    }
}

impl Default for ProxyRule {
    fn default() -> (rule: ProxyRule)
        ensures
            rule@ == (RuleModel {
                action: RuleAction::Block,
                path: Seq::<char>::empty(),
                method: MethodFilter::All,
            }),
    {
        ProxyRule { action: RuleAction::Block, path: String::new(), method: MethodFilter::All }
    }
}

impl Default for ProxyConfig {
    fn default() -> (config: ProxyConfig)
        ensures
            config.listening_port == 0,
            config.destination@ == Seq::<char>::empty(),
            config.destination_port == 0,
            config.rules@ == Seq::<ProxyRule>::empty(),
    {
        ProxyConfig {
            listening_port: 0,
            destination: String::new(),
            destination_port: 0,
            rules: Vec::new(),
        }
    }
}

} // verus!
