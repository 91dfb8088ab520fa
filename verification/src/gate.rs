//! Mapping an inbound request's authorization header to an HTTP outcome:
//! the compute half of the protected endpoint, taking the header value and
//! the verification time as plain values.
use vstd::prelude::*;
use vstd::string::StrSliceExecFns;
use crate::authorize;
use crate::authorize::AuthorizationDecision;
use crate::authorize::DenyReason;
use crate::claims::Claims;
use crate::errors::VerifyError;
use crate::keyset::SigningKeySet;
use crate::verification;

verus! {

/// A status code and body for the HTTP layer to send.
#[derive(Debug)]
pub struct HttpReply {
    /// The HTTP status code.
    pub status: u16,
    /// The response body.
    pub body: String,
}

/// The scheme prefix of a bearer authorization header.
pub open spec fn bearer_prefix() -> Seq<char> {
    seq!['B', 'e', 'a', 'r', 'e', 'r', ' ']
}

/// Whether a header value opens with the bearer scheme prefix.
pub open spec fn has_bearer_prefix(s: Seq<char>) -> bool {
    s.len() >= 7 && s.subrange(0, 7) == bearer_prefix()
}

/// The token carried by an authorization header: what follows the bearer
/// prefix, or — as the tolerant reading of a schemeless header — the whole
/// value.
pub open spec fn spec_extracted_token(s: Seq<char>) -> Seq<char> {
    if has_bearer_prefix(s) {
        s.subrange(7, s.len() as int)
    } else {
        s
    }
}

/// Splits the token off an authorization header value: everything after the
/// `Bearer ` prefix, or `None` where the value does not open with it.
pub fn bearer_token(header: &str) -> (r: Option<String>)
    ensures
        match r {
            Some(t) => has_bearer_prefix(header@) && t@ == header@.subrange(
                7,
                header@.len() as int,
            ),
            None => !has_bearer_prefix(header@),
        },
{
    let len = header.unicode_len();
    if len < 7 {
        return None;
    }
    let ok = header.get_char(0) == 'B' && header.get_char(1) == 'e' && header.get_char(2) == 'a'
        && header.get_char(3) == 'r' && header.get_char(4) == 'e' && header.get_char(5) == 'r'
        && header.get_char(6) == ' ';
    if !ok {
        proof {
            if has_bearer_prefix(header@) {
                assert forall|i: int| 0 <= i < 7 implies header@[i] == bearer_prefix()[i] by {
                    assert(header@.subrange(0, 7)[i] == header@[i]);
                }
            }
        }
        return None;
    }
    proof {
        assert(header@.subrange(0, 7) =~= bearer_prefix());
    }
    let t = header.substring_char(7, len);
    Some(t.to_owned())
}

/// Maps a verification outcome and the required role to an HTTP reply:
/// authentication failures to 401 with the failure's category, verified but
/// unauthorized claims to 403, and an authorized principal to 200 with a
/// greeting that names the subject.
pub fn reply_for(outcome: Result<Claims, VerifyError>, required_role: &String) -> (rep: HttpReply)
    ensures
        outcome matches Err(e) ==> rep.status == 401 && rep.body@ == e.spec_message(),
        outcome matches Ok(c) ==> {
            &&& rep.status == claims_decision_status(c, required_role@)
            &&& rep.status == 200 ==> rep.body@ == "Welcome! Your ID is "@ + c.sub@
            &&& c.roles is None ==> rep.body@ == "Forbidden"@
            &&& (c.roles matches Some(rs) && !rs.deep_view().contains(required_role@))
                ==> rep.body@ == "Not authorized"@
        },
{
    match outcome {
        Err(e) => HttpReply { status: 401, body: e.message() },
        Ok(c) => match authorize::authorize(&c, required_role) {
            AuthorizationDecision::Denied { reason } => match reason {
                DenyReason::NoRolesClaim => HttpReply {
                    status: 403,
                    body: "Forbidden".to_owned(),
                },
                DenyReason::RoleNotPresent => HttpReply {
                    status: 403,
                    body: "Not authorized".to_owned(),
                },
            },
            AuthorizationDecision::Allowed { subject, scope: _ } => {
                let mut body = "Welcome! Your ID is ".to_owned();
                body.append(subject.as_str());
                HttpReply { status: 200, body }
            },
        },
    }
}

/// The status that verified claims deserve against the required role: 200
/// where the roles hold it, 403 otherwise.
pub open spec fn claims_decision_status(c: Claims, required_role: Seq<char>) -> u16 {
    if c.roles matches Some(rs) && rs.deep_view().contains(required_role) {
        200
    } else {
        403
    }
}

/// Whether a body is one an authentication failure may carry: the fixed
/// missing-header phrase, or one of the failure categories.
pub open spec fn auth_failure_body(m: Seq<char>) -> bool {
    m == "Missing Authorization header"@ || exists|e: VerifyError| m == e.spec_message()
}

/// The reply for a request that arrives while no signing-key set could be
/// obtained: the key fetch failed, which is an authentication failure for
/// this request and fatal to nothing.
pub fn keys_unavailable_reply() -> (rep: HttpReply)
    ensures
        rep.status == 401,
        rep.body@ == VerifyError::KeyUnavailable.spec_message(),
{
    HttpReply { status: 401, body: VerifyError::KeyUnavailable.message() }
}

/// Handles one request to the protected endpoint, given the authorization
/// header as received (or its absence), the populated signing-key set, the
/// expected audience and issuer, the verification time with its clock-skew
/// allowance, and the required role. A missing header is turned away with
/// 401 and a fixed body; otherwise the header's token is verified and the
/// outcome mapped as [`reply_for`] says. No failure aborts the process.
pub fn handle_request(
    auth_header: Option<&String>,
    keys: &SigningKeySet,
    expected_aud: &String,
    expected_iss: &String,
    now: u64,
    skew: u64,
    required_role: &String,
) -> (rep: HttpReply)
    ensures
        auth_header is None ==> rep.status == 401 && rep.body@ == "Missing Authorization header"@,
        auth_header is Some ==> rep.status == 200 || rep.status == 401 || rep.status == 403,
        auth_header matches Some(h) && crate::jwt::header_kid_of(spec_extracted_token(h@)) is None
            ==> rep.status == 401 && rep.body@ == VerifyError::MalformedToken.spec_message(),
        auth_header matches Some(h) && crate::jwt::header_kid_of(spec_extracted_token(h@))
            matches Some(kid) && kid matches Some(k) && !keys.has_kid(k) ==> rep.status == 401
            && rep.body@ == VerifyError::UnknownKey.spec_message(),
        rep.status == 200 ==> exists|s: Seq<char>| rep.body@ == "Welcome! Your ID is "@ + s,
        rep.status == 403 ==> rep.body@ == "Forbidden"@ || rep.body@ == "Not authorized"@,
        rep.status == 401 ==> auth_failure_body(rep.body@),
{
    let header = match auth_header {
        None => {
            return HttpReply { status: 401, body: "Missing Authorization header".to_owned() };
        },
        Some(h) => h,
    };
    let token = match bearer_token(header.as_str()) {
        Some(t) => t,
        None => header.clone(),
    };
    proof {
        assert(token@ == spec_extracted_token(header@));
    }
    let outcome = verification::verify_token(
        token.as_str(),
        keys,
        expected_aud,
        expected_iss,
        now,
        skew,
    );
    let ghost o = outcome;
    let rep = reply_for(outcome, required_role);
    proof {
        match o {
            Err(e) => {
                assert(rep.body@ == e.spec_message());
                assert(auth_failure_body(rep.body@));
            },
            Ok(c) => {
                if rep.status == 200 {
                    assert(rep.body@ == "Welcome! Your ID is "@ + c.sub@);
                }
            },
        }
    }
    rep
}

} // verus!
