//! Building the signed access credential for joining a room: the grant
//! set is assembled here as plain values, and the signing itself is
//! livekit-api's access-token implementation behind a trusted wrapper.

use vstd::prelude::*;

use crate::state::FailureReason;

verus! {

/// The permissions a credential encodes, as plain values the contracts
/// can speak about.
pub struct GrantSpec {
    pub room_id: String,
    pub identity: String,
    pub room_join: bool,
    pub room_admin: bool,
    pub can_publish: bool,
    pub can_publish_data: bool,
    pub can_subscribe: bool,
    pub can_update_own_metadata: bool,
}

/// The grant set a participant joins with: room join plus full publish
/// and subscribe rights, and admin rights when requested.
pub fn standard_grants(room_id: String, identity: String, admin: bool) -> (g: GrantSpec)
    ensures
        g.room_id == room_id,
        g.identity == identity,
        g.room_join,
        g.room_admin == admin,
        g.can_publish,
        g.can_publish_data,
        g.can_subscribe,
        g.can_update_own_metadata,
{
    GrantSpec {
        room_id,
        identity,
        room_join: true,
        room_admin: admin,
        can_publish: true,
        can_publish_data: true,
        can_subscribe: true,
        can_update_own_metadata: true,
    }
}

/// Relies on livekit_api::access_token::AccessToken (with_api_key,
/// with_identity, with_name, with_grants, to_jwt): the builder signs the
/// claims with the API secret. to_jwt refuses exactly two things — empty
/// keys, and a room_join grant without an identity or room; on every
/// other input the HMAC signing of these claims succeeds. The token also
/// encodes the signing time, so the result is not a function of the
/// arguments and gets no name.
#[verifier::external_body]
fn sign_grants(api_key: &str, api_secret: &str, g: &GrantSpec) -> (r: Option<String>)
    ensures
        r is None <==> api_key@.len() == 0 || api_secret@.len() == 0 || (g.room_join && (
        g.identity@.len() == 0 || g.room_id@.len() == 0)),
{
    let grants = livekit_api::access_token::VideoGrants {
        room_join: g.room_join,
        room_admin: g.room_admin,
        room: g.room_id.clone(),
        can_publish: Some(g.can_publish),
        can_publish_data: Some(g.can_publish_data),
        can_subscribe: Some(g.can_subscribe),
        can_update_own_metadata: Some(g.can_update_own_metadata),
        ..Default::default()
    };
    let builder = livekit_api::access_token::AccessToken::with_api_key(api_key, api_secret);
    builder.with_identity(g.identity.as_str()).with_name(g.identity.as_str()).with_grants(
        grants,
    ).to_jwt().ok()
}

/// What each signing outcome means to the caller: a signed token is
/// handed through, a refusal is a credential-signing failure.
pub fn credential_outcome(signed: Option<String>) -> (r: Result<String, FailureReason>)
    ensures
        signed matches Some(t) ==> r == Ok::<String, FailureReason>(t),
        signed is None ==> r == Err::<String, FailureReason>(FailureReason::CredentialSigning),
{
    match signed {
        Some(t) => Ok(t),
        None => Err(FailureReason::CredentialSigning),
    }
}

/// Build the signed access credential for joining the room: standard
/// grants for the identity, signed with the API key pair. Signing
/// succeeds if and only if the key, the secret, the identity and the
/// room id are all non-empty; a refusal is reported as a
/// credential-signing failure.
pub fn build_access_credential(
    api_key: &str,
    api_secret: &str,
    room_id: String,
    identity: String,
    admin: bool,
) -> (r: Result<String, FailureReason>)
    ensures
        r matches Err(e) ==> e == FailureReason::CredentialSigning,
        r is Ok <==> api_key@.len() > 0 && api_secret@.len() > 0 && identity@.len() > 0
            && room_id@.len() > 0,
{
    let g = standard_grants(room_id, identity, admin);
    let signed = sign_grants(api_key, api_secret, &g);
    credential_outcome(signed)
}

} // verus!
