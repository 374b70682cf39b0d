use vstd::prelude::*;

use crate::errors::Error;
use crate::errors::bad_port_pattern_text;

verus! {

/// The Internet address of the local target a hidden service forwards to.
#[derive(Debug, Clone, Copy, PartialEq, Eq, Structural)]
pub enum TargetIp {
    V4(u8, u8, u8, u8),
    V6(u16, u16, u16, u16, u16, u16, u16, u16),
}

/// A local Internet socket address: host and port.
#[derive(Debug, Clone, Copy, PartialEq, Eq, Structural)]
pub struct TargetAddr {
    pub ip: TargetIp,
    pub port: u16,
}

/// One reverse-proxy rule: traffic arriving on exactly one virtual port is
/// forwarded, with default encapsulation, to an Internet target.
#[derive(Debug, Clone, Copy, PartialEq, Eq, Structural)]
pub struct ProxyRule {
    pub virtual_port: u16,
    pub target: TargetAddr,
}

/// The reverse-proxy configuration: a list of rules.
#[derive(Debug, Clone, PartialEq, Eq)]
pub struct ProxyConfigPlan {
    pub rules: Vec<ProxyRule>,
}

/// Whether a configuration handles traffic arriving on a virtual port.
pub open spec fn handles(p: ProxyConfigPlan, port: u16) -> bool {
    exists|i: int| 0 <= i < p.rules@.len() && (#[trigger] p.rules@[i]).virtual_port == port
}

/// Build the reverse-proxy configuration for one launched service: a single
/// rule mapping exactly the given virtual port to the given target. A port
/// pattern cannot be assembled from port zero; that input yields the proxy
/// configuration error, on every run.
pub fn proxy_config_plan(target: TargetAddr, virtual_port: u16) -> (r: Result<
    ProxyConfigPlan,
    Error,
>)
    ensures
        r is Ok <==> virtual_port != 0,
        r matches Ok(p) ==> p.rules@ =~= seq![(ProxyRule { virtual_port, target })],
        r matches Err(e) ==> e is ProxyConfig && e.message_spec() == bad_port_pattern_text(),
{
    if virtual_port == 0 {
        return Err(Error::bad_port_pattern_error());
    }
    let mut rules: Vec<ProxyRule> = Vec::new();
    rules.push(ProxyRule { virtual_port, target });
    Ok(ProxyConfigPlan { rules })
}

/// A one-rule configuration handles exactly the virtual port of its rule:
/// traffic to any other virtual port on the same onion address is unhandled.
pub proof fn lemma_single_rule_port_exact(p: ProxyConfigPlan, rule: ProxyRule, q: u16)
    requires
        p.rules@ =~= seq![rule],
    ensures
        handles(p, q) <==> q == rule.virtual_port,
{
    if q == rule.virtual_port {
        assert(p.rules@[0].virtual_port == q);
    }
}

} // verus!
