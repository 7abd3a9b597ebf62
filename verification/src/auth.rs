//! Authentication tokens and the authorisation rule for actions.
use vstd::prelude::*;
use crate::context::ConnectionContext;
use crate::json::{Json, field_i64, field_text, get_i64, get_text};
use crate::text::same_text;

verus! {

/// The claims of a verified authentication token.
#[derive(Clone, Copy, Debug, PartialEq, Eq, Structural)]
pub struct AuthClaims {
    pub sub: i32,
    pub is_admin: bool,
}

/// The token carried under `token` in a request payload.
pub open spec fn token_of(data: Option<Json>) -> Option<Seq<char>> {
    field_text(data, "token"@)
}

/// The user a request payload targets: its `id`, cut to 32 bits.
pub open spec fn target_user_of(data: Option<Json>) -> Option<i32> {
    match field_i64(data, "id"@) {
        Some(id) => Some(id as i32),
        None => None,
    }
}

/// Actions a user may take on their own account without being an administrator.
pub open spec fn is_self_service_action(action: Seq<char>) -> bool {
    action == "update-user"@ || action == "remove-user"@
}

/// An administrator may take any action; anyone else may only update or
/// remove their own account.
pub open spec fn action_allowed(
    action: Seq<char>,
    data: Option<Json>,
    is_admin: bool,
    user_id: Option<i32>,
) -> bool {
    if is_admin {
        true
    } else if is_self_service_action(action) {
        match (user_id, target_user_of(data)) {
            (Some(current), Some(target)) => current == target,
            _ => false,
        }
    } else {
        false
    }
}

/// The token carried by an `authenticate` request.
pub fn extract_token(data: &Option<Json>) -> (r: Option<String>)
    ensures
        match r {
            Some(t) => token_of(*data) == Some(t@),
            None => token_of(*data) is None,
        },
{
    get_text(data, "token")
}

/// The user id a request targets.
pub fn get_target_user_id(data: &Option<Json>) -> (r: Option<i32>)
    ensures
        r == target_user_of(*data),
{
    match get_i64(data, "id") {
        Some(id) => Some(id as i32),
        None => None,
    }
}

/// Whether the user of the connection may take `action` on `data`.
pub fn is_action_allowed(action: &str, data: &Option<Json>, ctx: &ConnectionContext) -> (r: bool)
    ensures
        r == action_allowed(action@, *data, ctx.is_admin, ctx.user_id),
{
    if ctx.is_admin {
        return true;
    }
    if same_text(action, "update-user") || same_text(action, "remove-user") {
        match (ctx.user_id, get_target_user_id(data)) {
            (Some(current), Some(target)) => current == target,
            _ => false,
        }
    } else {
        false
    }
}

/// The claims `(sub, is_admin)` of a token that is a valid HS256 token
/// signed with `secret`, read without regard to the clock: a token that
/// fails any check other than expiry, or whose `sub` is not a 32-bit
/// integer or whose `is_admin` is not a boolean, has none.
pub uninterp spec fn hs256_claims_of(token: Seq<char>, secret: Seq<u8>) -> Option<(i32, bool)>;

/// Verifies an authentication token with `jsonwebtoken::decode` (HS256,
/// the default validation, with `exp` not required) and reads its `sub`
/// and `is_admin` claims. An expired token is refused; whether it is
/// depends on the clock, so the contract only says that every token
/// accepted has the named claims, and that a token with none is refused.
#[verifier::external_body]
pub fn verify_token(token: &str, secret: &[u8]) -> (r: Option<AuthClaims>)
    ensures
        r matches Some(c) ==> hs256_claims_of(token@, secret@) == Some((c.sub, c.is_admin)),
        hs256_claims_of(token@, secret@) is None ==> r is None,
{
    let mut validation = jsonwebtoken::Validation::default();
    validation.required_spec_claims.remove("exp");
    let key = jsonwebtoken::DecodingKey::from_secret(secret);
    let data = jsonwebtoken::decode::<std::collections::BTreeMap<String, serde_json::Value>>(token, &key, &validation);
    let mut claims = data.ok()?.claims;
    let sub = serde_json::from_value::<i32>(claims.remove("sub").unwrap_or_default()).ok()?;
    let is_admin = serde_json::from_value::<bool>(claims.remove("is_admin").unwrap_or_default()).ok()?;
    Some(AuthClaims { sub, is_admin })
}

/// An administrator is allowed every action, on any payload.
pub proof fn lemma_admin_allowed_everything(action: Seq<char>, data: Option<Json>, user_id: Option<i32>)
    ensures
        action_allowed(action, data, true, user_id),
{
}

/// Someone who is not an administrator is allowed an action only when it
/// updates or removes a user, and that user is themselves.
pub proof fn lemma_non_admin_only_self_service(
    action: Seq<char>,
    data: Option<Json>,
    user_id: Option<i32>,
)
    requires
        action_allowed(action, data, false, user_id),
    ensures
        is_self_service_action(action),
        user_id is Some,
        target_user_of(data) == user_id,
{
}

} // verus!
