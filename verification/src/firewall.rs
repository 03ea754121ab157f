//! Firewall rule management through the system's `netsh` tool.
//!
//! The functions here build the exact `netsh advfirewall` argument vectors
//! for creating and deleting a rule; the caller spawns `netsh` with them.
//! On the abstract host the same mutations are the firewall operations of
//! [`crate::host::Host`].

use vstd::prelude::*;

use crate::manifest::{FirewallAction, FirewallDirection, FirewallProfile, FirewallRule};
use crate::state::seq_views;

verus! {

/// The word `netsh` expects for a rule direction.
pub open spec fn direction_word(d: FirewallDirection) -> Seq<char> {
    match d {
        FirewallDirection::In => "in"@,
        FirewallDirection::Out => "out"@,
    }
}

/// The word `netsh` expects for a rule action.
pub open spec fn action_word(a: FirewallAction) -> Seq<char> {
    match a {
        FirewallAction::Allow => "allow"@,
        FirewallAction::Block => "block"@,
    }
}

/// The word `netsh` expects for a network profile.
pub open spec fn profile_word(p: FirewallProfile) -> Seq<char> {
    match p {
        FirewallProfile::Any => "any"@,
        FirewallProfile::Domain => "domain"@,
        FirewallProfile::Private => "private"@,
        FirewallProfile::Public => "public"@,
    }
}

/// The `netsh` argument vector that creates the rule.
pub open spec fn add_rule_args_spec(rule: FirewallRule) -> Seq<Seq<char>> {
    seq![
        "advfirewall"@,
        "firewall"@,
        "add"@,
        "rule"@,
        "name="@ + rule.name@,
        "dir="@ + direction_word(rule.direction),
        "action="@ + action_word(rule.action),
        "program="@ + rule.program@,
        "enable=yes"@,
        "profile="@ + profile_word(rule.profile),
    ]
}

/// The `netsh` argument vector that deletes the named rule.
pub open spec fn delete_rule_args_spec(rule_name: Seq<char>) -> Seq<Seq<char>> {
    seq!["advfirewall"@, "firewall"@, "delete"@, "rule"@, "name="@ + rule_name]
}

/// A string made of a literal prefix and a value.
fn prefixed(prefix: &str, value: &str) -> (r: String)
    ensures
        r@ == prefix@ + value@,
{
    let mut s = prefix.to_owned();
    s.append(value);
    s
}

/// Builds the `netsh advfirewall` arguments that create the rule.
pub fn add_rule(rule: &FirewallRule) -> (r: Vec<String>)
    ensures
        seq_views(r@) == add_rule_args_spec(*rule),
{
    let dir = match rule.direction {
        FirewallDirection::In => "in",
        FirewallDirection::Out => "out",
    };
    let action = match rule.action {
        FirewallAction::Allow => "allow",
        FirewallAction::Block => "block",
    };
    let profile = match rule.profile {
        FirewallProfile::Any => "any",
        FirewallProfile::Domain => "domain",
        FirewallProfile::Private => "private",
        FirewallProfile::Public => "public",
    };
    let mut args: Vec<String> = Vec::new();
    args.push("advfirewall".to_owned());
    args.push("firewall".to_owned());
    args.push("add".to_owned());
    args.push("rule".to_owned());
    args.push(prefixed("name=", rule.name.as_str()));
    args.push(prefixed("dir=", dir));
    args.push(prefixed("action=", action));
    args.push(prefixed("program=", rule.program.as_str()));
    args.push("enable=yes".to_owned());
    args.push(prefixed("profile=", profile));
    proof {
        assert(seq_views(args@) =~= add_rule_args_spec(*rule));
    }
    args
}

/// Builds the `netsh advfirewall` arguments that delete the named rule.
pub fn delete_rule(rule_name: &String) -> (r: Vec<String>)
    ensures
        seq_views(r@) == delete_rule_args_spec(rule_name@),
{
    let mut args: Vec<String> = Vec::new();
    args.push("advfirewall".to_owned());
    args.push("firewall".to_owned());
    args.push("delete".to_owned());
    args.push("rule".to_owned());
    args.push(prefixed("name=", rule_name.as_str()));
    proof {
        assert(seq_views(args@) =~= delete_rule_args_spec(rule_name@));
    }
    args
}

} // verus!
