//! The command dispatcher. The network round-trip splits it in two
//! halves, each a pure function: planning, which resolves the location
//! and determines the relay call, and conclusion, which classifies the
//! outcome and normalizes successful response text. The caller carries
//! the plan out and hands the outcome back; it performs no retries, and
//! no state survives an invocation.

use vstd::prelude::*;
use crate::command::{CommandKind, CommandRequest};
use crate::config::{Config, ConfigKey};
use crate::error::CoreError;
use crate::location::{host_key, key_for_host, resolve, resolve_model, Resolution};
use crate::relay::{
    classify_outcome, is_success_status, method_of, plain_scene, plain_scene_body, relay_plan,
    scene_body, url_of, RelayOutcome, RelayPlan, ResolvedTarget,
};
use crate::text::{norm_spec, normalize};

verus! {

/// What a planned request must look like, given the configuration and the
/// request: each failure of resolution or of a configuration read is
/// propagated unchanged, in the order the values are read (literals, then
/// the target's host, then the shared port); otherwise the plan carries
/// the target's URL and the verb and body of the command kind.
pub open spec fn plan_model(config: Config, request: CommandRequest, r: Result<
    RelayPlan,
    CoreError,
>) -> bool {
    match resolve_model(config, request.locale, request.location.deep_view()) {
        Resolution::Missing(key) => r == Err::<RelayPlan, CoreError>(CoreError::ConfigMissing(key)),
        Resolution::Unmatched => (r matches Err(e) && e matches CoreError::InvalidLocation(s)
            && request.location matches Some(v) && s@ == v@),
        Resolution::Target(alias) => match (
            config.spec_get(host_key(alias)),
            config.spec_get(ConfigKey::Port),
        ) {
            (Option::None, _) => r == Err::<RelayPlan, CoreError>(
                CoreError::ConfigMissing(host_key(alias)),
            ),
            (Option::Some(_), Option::None) => r == Err::<RelayPlan, CoreError>(
                CoreError::ConfigMissing(ConfigKey::Port),
            ),
            (Option::Some(host), Option::Some(port)) => (r matches Ok(plan) && plan.url@ == url_of(
                host,
                port,
            ) && plan.method == method_of(request.kind) && match request.kind {
                CommandKind::Switch(scene) => (plan.body matches Some(b) && b@ == scene_body(
                    scene@,
                ) && (plain_scene(scene@) ==> b@ == plain_scene_body(scene@))),
                _ => plan.body is None,
            }),
        },
    }
}

/// Resolve the request's location, build the target from the store, and
/// determine the relay call; any failure on the way is returned unchanged.
/// No HTTP work happens here: a request whose location does not resolve
/// never yields a plan to carry out.
pub fn plan_request(config: &Config, request: &CommandRequest) -> (r: Result<RelayPlan, CoreError>)
    ensures
        plan_model(*config, *request, r),
{
    let alias = match resolve(config, request.locale, &request.location) {
        Ok(alias) => alias,
        Err(e) => {
            return Err(e);
        },
    };
    let host = match config.get(key_for_host(alias)) {
        Ok(host) => host,
        Err(e) => {
            return Err(e);
        },
    };
    let port = match config.get(ConfigKey::Port) {
        Ok(port) => port,
        Err(e) => {
            return Err(e);
        },
    };
    let target = ResolvedTarget { host, port };
    Ok(relay_plan(&target, &request.kind))
}

/// Conclude a dispatched command from its relay outcome: a 2xx response
/// body is normalized and returned; a transport failure and a non-2xx
/// status each become their typed error, with the error body left exactly
/// as it came.
pub fn conclude_relay(outcome: RelayOutcome) -> (r: Result<String, CoreError>)
    ensures
        match outcome {
            RelayOutcome::Transport(msg) => (r matches Err(e) && e matches CoreError::RelayTransport(m)
                && m@ == msg@),
            RelayOutcome::Response(status, body) => if is_success_status(status) {
                r matches Ok(t) && t@ == norm_spec(body@)
            } else {
                (r matches Err(e) && e matches CoreError::RelayStatus(st, b) && st == status && b@
                    == body@)
            },
        },
{
    match classify_outcome(outcome) {
        Ok(body) => Ok(normalize(body.as_str())),
        Err(e) => Err(e),
    }
}

} // verus!
