//! What the front-end decides: who may read and replace the configuration,
//! and what each request is answered with. Routing and transport are the
//! caller's.

use vstd::prelude::*;
use vstd::string::*;
use crate::app_state::{distinct, names, reconciled, AppState, ReloadError, ReloadPlan};
use crate::config::{text_view, Config};
use crate::listing::{is_listing, shows, sorted_snapshot};
use crate::registry::Registry;
use crate::record::ServiceState;
use crate::text::{concat2, str_eq};
use crate::time::Timestamp;

verus! {

/// The status of an answer to a request that went through.
pub const OK: u16 = 200;

/// The status of an answer to a request that lacks the right token.
pub const UNAUTHORIZED: u16 = 401;

/// The status of an answer to a request that failed on the server's side.
pub const INTERNAL_SERVER_ERROR: u16 = 500;

/// The token of an `Authorization: Bearer` header.
#[derive(Debug, PartialEq, Eq)]
pub struct BearerToken(pub String);

/// The token that the value `header` of an `Authorization` header carries:
/// what follows the prefix `Bearer `, where the value starts with it.
pub open spec fn bearer_of(header: Seq<char>) -> Option<Seq<char>> {
    if "Bearer "@.is_prefix_of(header) {
        Some(header.subrange("Bearer "@.len() as int, header.len() as int))
    } else {
        None
    }
}

/// Whether a request that presents `token` may read or replace a
/// configuration guarded by `expected`: any request where no token is
/// expected, otherwise one that presents the expected token.
pub open spec fn admits(expected: Option<Seq<char>>, token: Seq<char>) -> bool {
    match expected {
        Some(e) => e == token,
        None => true,
    }
}

impl BearerToken {
    /// Reads the token off the value of the `Authorization` header of a
    /// request; `None` stands for a request without a readable one.
    pub fn from_request_parts(authorization: Option<&str>) -> (r: Result<
        BearerToken,
        (u16, &'static str),
    >)
        ensures
            r is Ok <==> authorization is Some && bearer_of(authorization->0@) is Some,
            r matches Ok(token) ==> Some(token.0@) == bearer_of(authorization->0@),
            authorization is None ==> (r matches Err(e) && e.0 == UNAUTHORIZED && e.1@
                == "Missing Authorization header"@),
            authorization is Some && bearer_of(authorization->0@) is None ==> (r matches Err(e)
                && e.0 == UNAUTHORIZED && e.1@ == "Invalid Authorization header format"@),
    {
        match authorization {
            None => Err((UNAUTHORIZED, "Missing Authorization header")),
            Some(header) => {
                proof {
                    reveal_strlit("Bearer ");
                }
                let n = header.unicode_len();
                if n >= 7 && str_eq(header.substring_char(0, 7), "Bearer ") {
                    assert("Bearer "@.is_prefix_of(header@)) by {
                        assert(header@.subrange(0, 7) =~= "Bearer "@);
                    }
                    Ok(BearerToken(String::from_str(header.substring_char(7, n))))
                } else {
                    assert(!"Bearer "@.is_prefix_of(header@)) by {
                        if "Bearer "@.is_prefix_of(header@) {
                            assert(header@.subrange(0, 7) =~= "Bearer "@);
                        }
                    }
                    Err((UNAUTHORIZED, "Invalid Authorization header format"))
                }
            },
        }
    }
}

/// Checks the token of a request against the configuration in force.
pub fn authorize(config: &Config, bearer: &BearerToken) -> (r: Result<(), (u16, &'static str)>)
    ensures
        r is Ok <==> admits(text_view(config.api_bearer_token), bearer.0@),
        r matches Err(e) ==> e.0 == UNAUTHORIZED && e.1@ == "Invalid bearer token"@,
{
    match &config.api_bearer_token {
        Some(expected) => {
            if str_eq(bearer.0.as_str(), expected.as_str()) {
                Ok(())
            } else {
                Err((UNAUTHORIZED, "Invalid bearer token"))
            }
        },
        None => Ok(()),
    }
}

/// The answer to the liveness probe.
pub fn health_check() -> (r: (u16, &'static str))
    ensures
        r.0 == OK,
        r.1@ == "OK"@,
{
    (OK, "OK")
}

/// The answer to a request for the list of services: every ledger, in
/// display order. It takes no token.
pub fn get_services(services: &Registry<ServiceState>) -> (out: Vec<ServiceState>)
    requires
        services.wf(),
    ensures
        exists|ids: Seq<Seq<char>>| is_listing(services@, ids) && shows(services@, ids, out@),
{
    sorted_snapshot(services)
}

/// The answer to a request for the configuration: a copy of it for a
/// request that is admitted, a refusal otherwise.
pub fn get_config(config: &Config, bearer: &BearerToken) -> (r: Result<Config, (u16, &'static str)>)
    ensures
        r is Ok <==> admits(text_view(config.api_bearer_token), bearer.0@),
        r matches Ok(copy) ==> copy@ == config@,
        r matches Err(e) ==> e.0 == UNAUTHORIZED && e.1@ == "Invalid bearer token"@,
{
    match authorize(config, bearer) {
        Ok(()) => Ok(config.clone()),
        Err(e) => Err(e),
    }
}

/// What a refused reload is answered with.
pub open spec fn refusal_text(error: ReloadError) -> Seq<char> {
    match error {
        ReloadError::Invalid(e) => "Failed to update configuration: "@ + e.message_text(),
        ReloadError::Persist(why) => "Failed to update configuration: "@ + why@,
    }
}

/// The answer to a finished reload.
pub fn update_response(outcome: &Result<ReloadPlan, ReloadError>) -> (r: Result<
    (u16, &'static str),
    (u16, String),
>)
    ensures
        r is Ok <==> outcome is Ok,
        r matches Ok(a) ==> a.0 == OK && a.1@ == "Configuration updated successfully"@,
        r matches Err(e) ==> e.0 == INTERNAL_SERVER_ERROR && e.1@ == refusal_text(outcome->Err_0),
{
    match outcome {
        Ok(_) => Ok((OK, "Configuration updated successfully")),
        Err(ReloadError::Invalid(e)) => Err(
            (INTERNAL_SERVER_ERROR, concat2("Failed to update configuration: ", e.message())),
        ),
        Err(ReloadError::Persist(why)) => Err(
            (INTERNAL_SERVER_ERROR, concat2("Failed to update configuration: ", why.as_str())),
        ),
    }
}

/// What a request to replace the configuration does and is answered with.
/// `persisted` is the outcome of saving `new_config`. A request that is not
/// admitted changes nothing and is refused as unauthorized; an admitted one
/// reloads as [`AppState::update_config_at`] does, and its plan is handed
/// back with the answer.
pub fn update_config(
    state: &mut AppState,
    bearer: &BearerToken,
    new_config: Config,
    persisted: Result<(), String>,
    now: Timestamp,
) -> (r: (Result<(u16, &'static str), (u16, String)>, Option<ReloadPlan>))
    requires
        old(state).wf(),
    ensures
        final(state).wf(),
        r.1 is Some <==> r.0 is Ok,
        r.0 is Ok <==> admits(text_view(old(state).config.api_bearer_token), bearer.0@)
            && new_config.valid() && persisted is Ok,
        r.0 is Err ==> *final(state) == *old(state),
        !admits(text_view(old(state).config.api_bearer_token), bearer.0@) ==> (r.0 matches Err(e)
            && e.0 == UNAUTHORIZED && e.1@ == "Invalid bearer token"@),
        admits(text_view(old(state).config.api_bearer_token), bearer.0@) ==> (r.0 matches Err(e)
            ==> e.0 == INTERNAL_SERVER_ERROR && e.1@ == "Failed to update configuration: "@ + (
        match new_config.fault() {
            Some(fault) => fault.message_text(),
            None => persisted->Err_0@,
        })),
        r.0 matches Ok(a) ==> a.0 == OK && a.1@ == "Configuration updated successfully"@,
        r.1 matches Some(plan) ==> {
            &&& final(state).config == new_config
            &&& final(state).services@ == reconciled(old(state).services@, new_config@, now)
            &&& plan.stop@ == old(state).task_ids@
            &&& final(state).task_ids@ == plan.start@
            &&& distinct(plan.start@)
            &&& forall|id: Seq<char>| names(plan.start@, id) <==> new_config@.enabled(id)
        },
{
    match authorize(&state.config, bearer) {
        Err(e) => (Err((e.0, String::from_str(e.1))), None),
        Ok(()) => {
            proof {
                new_config.lemma_fault();
            }
            let outcome = state.update_config_at(new_config, persisted, now);
            let answer = update_response(&outcome);
            match outcome {
                Ok(plan) => (answer, Some(plan)),
                Err(_) => (answer, None),
            }
        },
    }
}

} // verus!
