//! Which requests the audit log records, and as what.

use vstd::prelude::*;
use crate::models::{AuditEventType, AuditLog, AuditLogBuilder};
use crate::security::jwt::str_opt;
use crate::time::opt_view;
use crate::text::{chars_of, contains_chars, contains_spec, str_eq};

verus! {

pub open spec fn has(path: Seq<char>, p: &str) -> bool {
    contains_spec(path, p@)
}

pub open spec fn ok_status(status: i32) -> bool {
    200 <= status < 300
}

/// The event that a finished request is logged as, if any: by the first of
/// these rules that applies to its path, method and status.
pub open spec fn event_spec(path: Seq<char>, method: Seq<char>, status: i32) -> Option<AuditEventType> {
    if has(path, "/auth/oauth") && has(path, "/init") {
        Some(AuditEventType::OAuthInitiated)
    } else if has(path, "/auth/oauth") && has(path, "/callback") {
        if ok_status(status) {
            Some(AuditEventType::OAuthSuccess)
        } else {
            Some(AuditEventType::OAuthFailure)
        }
    } else if has(path, "/token/refresh") && method == "POST"@ {
        Some(AuditEventType::TokenRefreshed)
    } else if has(path, "/token/validate") && method == "POST"@ {
        if ok_status(status) {
            Some(AuditEventType::TokenValidated)
        } else {
            Some(AuditEventType::TokenValidationFailed)
        }
    } else if has(path, "/token/revoke") && method == "POST"@ {
        Some(AuditEventType::TokenRevoked)
    } else if has(path, "/user/profile") && method == "PATCH"@ {
        Some(AuditEventType::UserUpdated)
    } else if has(path, "/user/account") && method == "DELETE"@ {
        Some(AuditEventType::UserDeleted)
    } else if has(path, "/admin") {
        Some(AuditEventType::AdminAction)
    } else if status == 401 {
        Some(AuditEventType::UnauthorizedAccess)
    } else if status == 429 {
        Some(AuditEventType::RateLimitExceeded)
    } else {
        None
    }
}

/// How a finished request is classified, rule by rule, each applying when
/// no earlier one does: a login start and a login callback (succeeded
/// with a 2xx status, else failed) by their path; `POST` to refresh,
/// validate (valid with a 2xx status, else failed) or revoke a token;
/// `PATCH` of the profile; `DELETE` of the account; anything under
/// `/admin`. A request none of these fit is an unauthorized access when
/// answered 401, a rate-limit refusal when answered 429, and not recorded
/// otherwise.
pub proof fn lemma_event_rules(path: Seq<char>, method: Seq<char>, status: i32)
    ensures
        contains_spec(path, "/auth/oauth"@) && contains_spec(path, "/init"@) ==> event_spec(path, method, status)
            == Some(AuditEventType::OAuthInitiated),
        ({
            let login = contains_spec(path, "/auth/oauth"@);
            let callback = login && !contains_spec(path, "/init"@) && contains_spec(path, "/callback"@);
            &&& callback && 200 <= status < 300 ==> event_spec(path, method, status) == Some(
                AuditEventType::OAuthSuccess,
            )
            &&& callback && !(200 <= status < 300) ==> event_spec(path, method, status) == Some(
                AuditEventType::OAuthFailure,
            )
        }),
        ({
            let earlier = (contains_spec(path, "/auth/oauth"@) && (contains_spec(path, "/init"@) || contains_spec(
                path,
                "/callback"@,
            )));
            let post = method == "POST"@;
            &&& !earlier && post && contains_spec(path, "/token/refresh"@) ==> event_spec(path, method, status)
                == Some(AuditEventType::TokenRefreshed)
            &&& !earlier && post && !contains_spec(path, "/token/refresh"@) && contains_spec(path, "/token/validate"@)
                ==> event_spec(path, method, status) == (if 200 <= status < 300 {
                Some(AuditEventType::TokenValidated)
            } else {
                Some(AuditEventType::TokenValidationFailed)
            })
            &&& !earlier && post && !contains_spec(path, "/token/refresh"@) && !contains_spec(path, "/token/validate"@)
                && contains_spec(path, "/token/revoke"@) ==> event_spec(path, method, status) == Some(
                AuditEventType::TokenRevoked,
            )
        }),
        ({
            let earlier = (contains_spec(path, "/auth/oauth"@) && (contains_spec(path, "/init"@) || contains_spec(
                path,
                "/callback"@,
            ))) || (method == "POST"@ && (contains_spec(path, "/token/refresh"@) || contains_spec(
                path,
                "/token/validate"@,
            ) || contains_spec(path, "/token/revoke"@)));
            let user_rule = (method == "PATCH"@ && contains_spec(path, "/user/profile"@)) || (method == "DELETE"@
                && contains_spec(path, "/user/account"@));
            let admin = contains_spec(path, "/admin"@);
            &&& !earlier && method == "PATCH"@ && contains_spec(path, "/user/profile"@) ==> event_spec(
                path,
                method,
                status,
            ) == Some(AuditEventType::UserUpdated)
            &&& !earlier && method == "DELETE"@ && contains_spec(path, "/user/account"@) ==> event_spec(
                path,
                method,
                status,
            ) == Some(AuditEventType::UserDeleted)
            &&& !earlier && !user_rule && admin ==> event_spec(path, method, status) == Some(
                AuditEventType::AdminAction,
            )
            &&& !earlier && !user_rule && !admin && status == 401 ==> event_spec(path, method, status) == Some(
                AuditEventType::UnauthorizedAccess,
            )
            &&& !earlier && !user_rule && !admin && status == 429 ==> event_spec(path, method, status) == Some(
                AuditEventType::RateLimitExceeded,
            )
            &&& !earlier && !user_rule && !admin && status != 401 && status != 429 ==> event_spec(
                path,
                method,
                status,
            ) is None
        }),
{
    reveal_strlit("PATCH");
    reveal_strlit("DELETE");
    assert("DELETE"@[0] != "PATCH"@[0]);
    assert("DELETE"@ != "PATCH"@);
}

fn path_has(path: &Vec<char>, p: &str) -> (r: bool)
    ensures
        r == has(path@, p),
{
    let pc = chars_of(p);
    contains_chars(path.as_slice(), pc.as_slice())
}

pub fn determine_event_type(path: &str, method: &str, status_code: i32) -> (r: Option<AuditEventType>)
    ensures
        r == event_spec(path@, method@, status_code),
{
    let p = chars_of(path);
    let ok = 200 <= status_code && status_code < 300;
    if path_has(&p, "/auth/oauth") && path_has(&p, "/init") {
        return Some(AuditEventType::OAuthInitiated);
    }
    if path_has(&p, "/auth/oauth") && path_has(&p, "/callback") {
        return if ok {
            Some(AuditEventType::OAuthSuccess)
        } else {
            Some(AuditEventType::OAuthFailure)
        };
    }
    if path_has(&p, "/token/refresh") && str_eq(method, "POST") {
        return Some(AuditEventType::TokenRefreshed);
    }
    if path_has(&p, "/token/validate") && str_eq(method, "POST") {
        return if ok {
            Some(AuditEventType::TokenValidated)
        } else {
            Some(AuditEventType::TokenValidationFailed)
        };
    }
    if path_has(&p, "/token/revoke") && str_eq(method, "POST") {
        return Some(AuditEventType::TokenRevoked);
    }
    if path_has(&p, "/user/profile") && str_eq(method, "PATCH") {
        return Some(AuditEventType::UserUpdated);
    }
    if path_has(&p, "/user/account") && str_eq(method, "DELETE") {
        return Some(AuditEventType::UserDeleted);
    }
    if path_has(&p, "/admin") {
        return Some(AuditEventType::AdminAction);
    }
    if status_code == 401 {
        return Some(AuditEventType::UnauthorizedAccess);
    }
    if status_code == 429 {
        return Some(AuditEventType::RateLimitExceeded);
    }
    None
}

/// The audit entry of a finished request, if its kind is recorded: the
/// event, the client address, path, method and status, and the request
/// id, user and user agent when known.
pub fn audit_entry(
    path: &str,
    method: &str,
    status_code: i32,
    client_ip: &str,
    request_id: Option<&str>,
    user_id: Option<&str>,
    user_agent: Option<&str>,
) -> (r: Option<AuditLog>)
    ensures
        r is Some <==> event_spec(path@, method@, status_code) is Some,
        r matches Some(log) ==> ({
            &&& log.event_type@ == event_spec(path@, method@, status_code).unwrap().name_spec()
            &&& log.ip_address@ == client_ip@
            &&& log.endpoint matches Some(e) && e@ == path@
            &&& log.http_method matches Some(m) && m@ == method@
            &&& log.status_code == Some(status_code)
            &&& opt_view(log.request_id) == str_opt(request_id)
            &&& opt_view(log.user_id) == str_opt(user_id)
            &&& opt_view(log.user_agent) == str_opt(user_agent)
            &&& log.error_message is None
            &&& log.metadata is None
        }),
{
    let event = match determine_event_type(path, method, status_code) {
        Some(e) => e,
        None => {
            return None;
        },
    };
    let mut builder = AuditLogBuilder::new(event).ip_address(client_ip).endpoint(path).http_method(
        method,
    ).status_code(status_code);
    if let Some(id) = request_id {
        builder = builder.request_id(id);
    }
    if let Some(uid) = user_id {
        builder = builder.user_id(uid);
    }
    if let Some(ua) = user_agent {
        builder = builder.user_agent(ua);
    }
    Some(builder.build())
}

} // verus!
