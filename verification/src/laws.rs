//! The security laws of the gateway, each proved for every store, identity
//! and key: lookups never cross identity boundaries, anonymous callers are
//! rejected before any lookup, repeated lookups agree, and success bodies
//! carry nothing but a token name.

use vstd::prelude::*;

use crate::gateway::{
    login_required_msg, spec_describe_by_name, spec_describe_by_secret, spec_shaped_body,
    token_forbidden_msg, token_not_found_msg, ApiResponseView, GatewayFault,
};
use crate::model::{RequestBodyView, TokenView};
use crate::store::{
    key_matches, lemma_find_absent, lemma_find_scopes_to_owner, spec_find, LookupKeyView,
};

verus! {

/// A name lookup as one identity never returns another identity's token:
/// when the caller owns no token of the supplied name, the reply is exactly
/// `404` — even when records owned by *other* identities carry that very
/// name.
pub proof fn lemma_foreign_name_is_not_found(
    caller_id: int,
    tokens: Seq<TokenView>,
    name: Seq<char>,
)
    requires
        forall|i: int|
            0 <= i < tokens.len() && tokens[i].owner_id == caller_id ==> tokens[i].name != name,
    ensures
        spec_describe_by_name(Some(caller_id), tokens, name) == ApiResponseView::NotFound(
            token_not_found_msg(),
        ),
{
    lemma_find_absent(tokens, caller_id, LookupKeyView::ByName(name));
}

/// A secret lookup as one identity never returns another identity's token:
/// when the caller owns no token with the supplied secret, the reply is
/// exactly `403` — even when the secret is the exact secret of a record
/// owned by *another* identity.
pub proof fn lemma_foreign_secret_is_forbidden(
    caller_id: int,
    tokens: Seq<TokenView>,
    secret: Seq<char>,
)
    requires
        forall|i: int|
            0 <= i < tokens.len() && tokens[i].owner_id == caller_id ==> tokens[i].secret
                != secret,
    ensures
        spec_describe_by_secret(
            Some(caller_id),
            tokens,
            Some((RequestBodyView { token: secret })),
        ) == Ok::<ApiResponseView, GatewayFault>(
            ApiResponseView::Forbidden(token_forbidden_msg()),
        ),
{
    lemma_find_absent(tokens, caller_id, LookupKeyView::BySecret(secret));
}

/// When a name lookup succeeds, the shaped body comes from a record the
/// caller owns, carrying the supplied name: no other identity's record can
/// be the source.
pub proof fn lemma_name_success_is_callers_own_token(
    caller_id: int,
    tokens: Seq<TokenView>,
    name: Seq<char>,
)
    ensures
        (match spec_describe_by_name(Some(caller_id), tokens, name) {
            ApiResponseView::Success(body) => exists|i: int|
                0 <= i < tokens.len() && tokens[i].owner_id == caller_id && tokens[i].name == name
                    && body == spec_shaped_body(tokens[i]),
            _ => true,
        }),
{
    lemma_find_scopes_to_owner(tokens, caller_id, LookupKeyView::ByName(name));
    match spec_find(tokens, caller_id, LookupKeyView::ByName(name)) {
        Some(t) => {
            let i = choose|i: int| 0 <= i < tokens.len() && tokens[i] == t;
            assert(0 <= i < tokens.len() && tokens[i].owner_id == caller_id && tokens[i].name
                == name && spec_shaped_body(t) == spec_shaped_body(tokens[i]));
        },
        None => {},
    }
}

/// When a secret lookup succeeds, the shaped body comes from a record the
/// caller owns whose secret is the one the caller already presented: no
/// other identity's record can be the source.
pub proof fn lemma_secret_success_is_callers_own_token(
    caller_id: int,
    tokens: Seq<TokenView>,
    secret: Seq<char>,
)
    ensures
        (match spec_describe_by_secret(
            Some(caller_id),
            tokens,
            Some((RequestBodyView { token: secret })),
        ) {
            Ok(ApiResponseView::Success(body)) => exists|i: int|
                0 <= i < tokens.len() && tokens[i].owner_id == caller_id && tokens[i].secret
                    == secret && body == spec_shaped_body(tokens[i]),
            _ => true,
        }),
{
    lemma_find_scopes_to_owner(tokens, caller_id, LookupKeyView::BySecret(secret));
    match spec_find(tokens, caller_id, LookupKeyView::BySecret(secret)) {
        Some(t) => {
            let i = choose|i: int| 0 <= i < tokens.len() && tokens[i] == t;
            assert(0 <= i < tokens.len() && tokens[i].owner_id == caller_id && tokens[i].secret
                == secret && spec_shaped_body(t) == spec_shaped_body(tokens[i]));
        },
        None => {},
    }
}

/// A request without a resolvable identity is answered `401` by both shapes,
/// and the reply does not depend on the store in any way — two arbitrary
/// stores yield the same reply, so no lookup can have taken place.
pub proof fn lemma_anonymous_rejected_before_lookup(
    tokens1: Seq<TokenView>,
    tokens2: Seq<TokenView>,
    name: Seq<char>,
    body: Option<RequestBodyView>,
)
    ensures
        spec_describe_by_name(None, tokens1, name) == ApiResponseView::Unauthorized(
            login_required_msg(),
        ),
        spec_describe_by_name(None, tokens1, name) == spec_describe_by_name(None, tokens2, name),
        spec_describe_by_secret(None, tokens1, body) == Ok::<ApiResponseView, GatewayFault>(
            ApiResponseView::Unauthorized(login_required_msg()),
        ),
        spec_describe_by_secret(None, tokens1, body) == spec_describe_by_secret(
            None,
            tokens2,
            body,
        ),
{
}

/// Repeating the same authenticated, valid name lookup yields an identical
/// reply: each run equals the one reply the spec function assigns to the
/// unchanged inputs.
pub proof fn lemma_describe_by_name_idempotent(
    identity: Option<int>,
    tokens: Seq<TokenView>,
    name: Seq<char>,
    first: ApiResponseView,
    second: ApiResponseView,
)
    requires
        first == spec_describe_by_name(identity, tokens, name),
        second == spec_describe_by_name(identity, tokens, name),
    ensures
        first == second,
{
}

/// Repeating the same authenticated, valid secret lookup yields an identical
/// reply, faults included.
pub proof fn lemma_describe_by_secret_idempotent(
    identity: Option<int>,
    tokens: Seq<TokenView>,
    body: Option<RequestBodyView>,
    first: Result<ApiResponseView, GatewayFault>,
    second: Result<ApiResponseView, GatewayFault>,
)
    requires
        first == spec_describe_by_secret(identity, tokens, body),
        second == spec_describe_by_secret(identity, tokens, body),
    ensures
        first == second,
{
}

/// Every reply is sent with one of the four expected status codes.
pub proof fn lemma_status_is_expected(reply: ApiResponseView)
    ensures
        reply.status() == 200 || reply.status() == 401 || reply.status() == 403 || reply.status()
            == 404,
{
}

/// A name lookup reads nothing but names and owners: two stores that agree
/// record by record on name and owner — while the secrets and expirations
/// may differ arbitrarily — are answered identically.
pub proof fn lemma_name_lookup_reads_no_secret(
    tokens1: Seq<TokenView>,
    tokens2: Seq<TokenView>,
    owner_id: int,
    name: Seq<char>,
)
    requires
        tokens1.len() == tokens2.len(),
        forall|i: int|
            0 <= i < tokens1.len() ==> tokens1[i].name == tokens2[i].name
                && tokens1[i].owner_id == tokens2[i].owner_id,
    ensures
        (match (
            spec_find(tokens1, owner_id, LookupKeyView::ByName(name)),
            spec_find(tokens2, owner_id, LookupKeyView::ByName(name)),
        ) {
            (Some(t1), Some(t2)) => t1.name == t2.name && t1.owner_id == t2.owner_id,
            (None, None) => true,
            _ => false,
        }),
    decreases tokens1.len(),
{
    if tokens1.len() > 0 {
        assert(tokens1[0].name == tokens2[0].name && tokens1[0].owner_id == tokens2[0].owner_id);
        if !key_matches(tokens1[0], owner_id, LookupKeyView::ByName(name)) {
            let rest1 = tokens1.drop_first();
            let rest2 = tokens2.drop_first();
            assert forall|i: int| 0 <= i < rest1.len() implies rest1[i].name == rest2[i].name
                && rest1[i].owner_id == rest2[i].owner_id by {
                assert(rest1[i] == tokens1[i + 1]);
                assert(rest2[i] == tokens2[i + 1]);
            }
            lemma_name_lookup_reads_no_secret(rest1, rest2, owner_id, name);
        }
    }
}

/// Replies never carry a secret: the whole describe-by-name reply — status,
/// message and body — is unchanged when every secret (and expiration) in the
/// store is replaced by anything else, so no code path can have copied a
/// secret into the reply.
pub proof fn lemma_response_independent_of_secrets(
    identity: Option<int>,
    tokens1: Seq<TokenView>,
    tokens2: Seq<TokenView>,
    name: Seq<char>,
)
    requires
        tokens1.len() == tokens2.len(),
        forall|i: int|
            0 <= i < tokens1.len() ==> tokens1[i].name == tokens2[i].name
                && tokens1[i].owner_id == tokens2[i].owner_id,
    ensures
        spec_describe_by_name(identity, tokens1, name) == spec_describe_by_name(
            identity,
            tokens2,
            name,
        ),
{
    match identity {
        None => {},
        Some(owner_id) => {
            lemma_name_lookup_reads_no_secret(tokens1, tokens2, owner_id, name);
        },
    }
}

} // verus!
