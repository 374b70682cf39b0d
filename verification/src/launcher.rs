use vstd::prelude::*;

use crate::errors::Error;
use crate::nickname::Nickname;
use crate::nickname::is_valid_nickname;
use crate::proxy::ProxyConfigPlan;
use crate::proxy::ProxyRule;
use crate::proxy::TargetAddr;
use crate::proxy::proxy_config_plan;

verus! {

/// Everything the host needs to publish one hidden service: the validated
/// nickname that keys the service's on-disk identity — the onion-service
/// configuration is parameterized by the nickname only, all other fields
/// being defaults — and the one-rule reverse-proxy configuration forwarding
/// the virtual port to the local target.
#[derive(Debug, Clone, PartialEq, Eq)]
pub struct LaunchPlan {
    pub nickname: Nickname,
    pub proxy: ProxyConfigPlan,
}

/// Work out the launch plan for one hidden service. This mirrors the launch
/// protocol: the proxy configuration is assembled first, then the nickname
/// is validated, so a bad port and a bad nickname are reported in that
/// order. Success is owed exactly when the virtual port is nonzero and the
/// nickname is valid.
pub fn plan_onion_service(nickname: String, target: TargetAddr, virtual_port: u16) -> (r: Result<
    LaunchPlan,
    Error,
>)
    ensures
        r is Ok <==> virtual_port != 0 && is_valid_nickname(nickname@),
        virtual_port == 0 ==> (r matches Err(e) && e is ProxyConfig),
        virtual_port != 0 && !is_valid_nickname(nickname@) ==> (r matches Err(e)
            && e is InvalidNickname),
        r matches Ok(p) ==> p.nickname@ == nickname@ && p.nickname.wf() && p.proxy.rules@ =~= seq![
            (ProxyRule { virtual_port, target }),
        ],
{
    let proxy: ProxyConfigPlan = match proxy_config_plan(target, virtual_port) {
        Ok(p) => p,
        Err(e) => {
            return Err(e);
        },
    };
    let nickname: Nickname = match Nickname::new(nickname) {
        Ok(n) => n,
        Err(e) => {
            return Err(e);
        },
    };
    Ok(LaunchPlan { nickname, proxy })
}

} // verus!
