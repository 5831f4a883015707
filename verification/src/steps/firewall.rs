//! The host firewall and its allow rules.

use super::{AnyStep, CloudInitFragment, Step, StepView};
use crate::text::push_line;
use vstd::prelude::*;
use vstd::string::*;

verus! {

/// Sets the default policy for one direction of traffic.
pub open spec fn firewall_default_line(policy: Seq<char>, direction: Seq<char>) -> Seq<char> {
    "ufw default "@ + policy + " "@ + direction
}

/// Allows one port.
pub open spec fn firewall_allow_line(port: Seq<char>) -> Seq<char> {
    "ufw allow "@ + port
}

/// Guard of a firewall step: the firewall reports itself active.
pub open spec fn firewall_check() -> Seq<char> {
    "ufw status | grep -q 'Status: active'"@
}

/// Enables the firewall where it is not active yet.
pub open spec fn firewall_enable_line() -> Seq<char> {
    "ufw status | grep -q 'Status: active' || ufw --force enable"@
}

/// Shell statements of a firewall step: the two default policies, one allow
/// line per rule in the rules' order, then the guarded enabling.
pub open spec fn firewall_bash(
    rules: Seq<Seq<char>>,
    default_incoming: Seq<char>,
    default_outgoing: Seq<char>,
) -> Seq<Seq<char>> {
    seq![
        firewall_default_line(default_incoming, "incoming"@),
        firewall_default_line(default_outgoing, "outgoing"@),
    ] + Seq::new(rules.len(), |i: int| firewall_allow_line(rules[i])) + seq![
        firewall_enable_line(),
    ]
}

/// A firewall allow rule.
#[derive(Debug, Clone)]
pub struct UfwRule {
    /// Port and protocol to allow, such as `22/tcp`.
    pub allow: String,
}

impl UfwRule {
    /// A rule that allows `allow`.
    pub fn new(allow: &str) -> (r: Self)
        ensures
            r.allow@ == allow@,
    {
        UfwRule { allow: String::from_str(allow) }
    }
}

/// What a list of rules allows, in order.
pub open spec fn rules_view(rules: Seq<UfwRule>) -> Seq<Seq<char>> {
    Seq::new(rules.len(), |i: int| rules[i].allow@)
}

/// Ensure that the firewall is configured and enabled.
#[derive(Debug, Clone)]
pub struct EnsureFirewall {
    /// Rules to apply.
    pub rules: Vec<UfwRule>,
    /// Default policy for incoming traffic.
    pub default_incoming: String,
    /// Default policy for outgoing traffic.
    pub default_outgoing: String,
    /// Description.
    pub description: String,
}

impl View for EnsureFirewall {
    type V = StepView;

    open spec fn view(&self) -> StepView {
        StepView::Firewall {
            rules: rules_view(self.rules@),
            default_incoming: self.default_incoming@,
            default_outgoing: self.default_outgoing@,
            description: self.description@,
        }
    }
}

fn default_line(policy: &str, direction: &str) -> (r: String)
    ensures
        r@ == firewall_default_line(policy@, direction@),
{
    let mut line = String::from_str("ufw default ");
    line.append(policy);
    line.append(" ");
    line.append(direction);
    line
}

impl EnsureFirewall {
    /// A firewall step without rules that denies incoming and allows
    /// outgoing traffic.
    pub fn new() -> (r: Self)
        ensures
            r@ == (StepView::Firewall {
                rules: Seq::empty(),
                default_incoming: "deny"@,
                default_outgoing: "allow"@,
                description: "Configure firewall"@,
            }),
    {
        let r = EnsureFirewall {
            rules: Vec::new(),
            default_incoming: String::from_str("deny"),
            default_outgoing: String::from_str("allow"),
            description: String::from_str("Configure firewall"),
        };
        assert(rules_view(r.rules@) =~= Seq::empty());
        r
    }

    /// Adds a rule that allows a port.
    pub fn allow(self, port: &str) -> (r: Self)
        ensures
            r@ == (StepView::Firewall {
                rules: rules_view(self.rules@).push(port@),
                default_incoming: self.default_incoming@,
                default_outgoing: self.default_outgoing@,
                description: self.description@,
            }),
    {
        let mut rules = self.rules;
        rules.push(UfwRule::new(port));
        assert(rules_view(rules@) =~= rules_view(self.rules@).push(port@));
        EnsureFirewall {
            rules,
            default_incoming: self.default_incoming,
            default_outgoing: self.default_outgoing,
            description: self.description,
        }
    }

    /// Sets the default policy for incoming traffic.
    pub fn default_incoming(self, policy: &str) -> (r: Self)
        ensures
            r@ == (StepView::Firewall {
                rules: rules_view(self.rules@),
                default_incoming: policy@,
                default_outgoing: self.default_outgoing@,
                description: self.description@,
            }),
    {
        EnsureFirewall {
            rules: self.rules,
            default_incoming: String::from_str(policy),
            default_outgoing: self.default_outgoing,
            description: self.description,
        }
    }

    /// Sets the default policy for outgoing traffic.
    pub fn default_outgoing(self, policy: &str) -> (r: Self)
        ensures
            r@ == (StepView::Firewall {
                rules: rules_view(self.rules@),
                default_incoming: self.default_incoming@,
                default_outgoing: policy@,
                description: self.description@,
            }),
    {
        EnsureFirewall {
            rules: self.rules,
            default_incoming: self.default_incoming,
            default_outgoing: String::from_str(policy),
            description: self.description,
        }
    }
}

impl Default for EnsureFirewall {
    fn default() -> (r: Self)
        ensures
            r@ == (StepView::Firewall {
                rules: Seq::empty(),
                default_incoming: "deny"@,
                default_outgoing: "allow"@,
                description: "Configure firewall"@,
            }),
    {
        EnsureFirewall::new()
    }
}

impl Step for EnsureFirewall {
    open spec fn model(&self) -> StepView {
        self@
    }

    fn description(&self) -> (r: &str) {
        self.description.as_str()
    }

    fn to_cloud_init(&self) -> (r: CloudInitFragment) {
        CloudInitFragment::of_commands(self.to_bash())
    }

    fn to_bash(&self) -> (r: Vec<String>) {
        let ghost rules = rules_view(self.rules@);
        let ghost head = seq![
            firewall_default_line(self.default_incoming@, "incoming"@),
            firewall_default_line(self.default_outgoing@, "outgoing"@),
        ];
        let mut cmds: Vec<String> = Vec::new();
        push_line(&mut cmds, default_line(self.default_incoming.as_str(), "incoming"));
        push_line(&mut cmds, default_line(self.default_outgoing.as_str(), "outgoing"));
        assert(cmds.deep_view() =~= head + Seq::new(0, |k: int| firewall_allow_line(rules[k])));

        let mut i: usize = 0;
        while i < self.rules.len()
            invariant
                i <= self.rules.len(),
                rules == rules_view(self.rules@),
                cmds.deep_view() == head + Seq::new(i as nat, |k: int| firewall_allow_line(rules[k])),
            decreases self.rules.len() - i,
        {
            let mut line = String::from_str("ufw allow ");
            line.append(self.rules[i].allow.as_str());
            push_line(&mut cmds, line);
            assert(cmds.deep_view() =~= head + Seq::new(
                (i + 1) as nat,
                |k: int| firewall_allow_line(rules[k]),
            ));
            i += 1;
        }
        push_line(
            &mut cmds,
            String::from_str("ufw status | grep -q 'Status: active' || ufw --force enable"),
        );
        assert(cmds.deep_view() =~= self@.bash());
        cmds
    }

    fn check_command(&self) -> (r: Option<String>) {
        Some(String::from_str("ufw status | grep -q 'Status: active'"))
    }

    fn into_any(self) -> (r: AnyStep) {
        AnyStep::Firewall(self)
    }
}

} // verus!
