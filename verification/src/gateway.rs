//! The authorization gateway: resolve identity, reject anonymous callers,
//! locate the token scoped to the caller, and shape a sanitized response.
//!
//! Two entry points share the skeleton but differ deliberately in the
//! failure code on a missed lookup: a name miss is a plain absence (`404`),
//! while a secret miss is treated as an authorization failure (`403`), so
//! that a caller who presented a secret-shaped value learns nothing about
//! whether such a secret exists.

use vstd::prelude::*;

use crate::model::{
    Identity, RequestBody, RequestBodyView, ResponseBody, ResponseBodyView, TokenRecord, TokenView,
};
use crate::store::{spec_find, LookupKeyView, TokenStore};

verus! {

/// The reply sent to the client: a sanitized token view on success, or one
/// of the three expected rejections, each carrying a human-readable message.
#[derive(Debug, Clone, PartialEq, Eq)]
pub enum ApiResponse {
    /// `200`: the sanitized view of the caller's own token.
    Success(ResponseBody),
    /// `401`: no identity could be resolved from the request headers.
    Unauthorized(String),
    /// `404`: no token of the caller carries the supplied name.
    NotFound(String),
    /// `403`: no token of the caller carries the supplied secret.
    Forbidden(String),
}

/// Mathematical image of an [`ApiResponse`].
pub ghost enum ApiResponseView {
    Success(ResponseBodyView),
    Unauthorized(Seq<char>),
    NotFound(Seq<char>),
    Forbidden(Seq<char>),
}

impl View for ApiResponse {
    type V = ApiResponseView;

    open spec fn view(&self) -> ApiResponseView {
        match self {
            ApiResponse::Success(body) => ApiResponseView::Success(body@),
            ApiResponse::Unauthorized(msg) => ApiResponseView::Unauthorized(msg@),
            ApiResponse::NotFound(msg) => ApiResponseView::NotFound(msg@),
            ApiResponse::Forbidden(msg) => ApiResponseView::Forbidden(msg@),
        }
    }
}

impl ApiResponseView {
    /// The HTTP status code each reply is sent with.
    pub open spec fn status(self) -> int {
        match self {
            ApiResponseView::Success(_) => 200,
            ApiResponseView::Unauthorized(_) => 401,
            ApiResponseView::NotFound(_) => 404,
            ApiResponseView::Forbidden(_) => 403,
        }
    }
}

impl ApiResponse {
    /// The HTTP status code this reply is sent with.
    pub fn status(&self) -> (code: u16)
        ensures
            code as int == self@.status(),
    {
        match self {
            ApiResponse::Success(_) => 200,
            ApiResponse::Unauthorized(_) => 401,
            ApiResponse::NotFound(_) => 404,
            ApiResponse::Forbidden(_) => 403,
        }
    }
}

/// A failure of the persistence layer for reasons other than "no match":
/// connectivity, query error. Distinct from absence, which is a normal
/// outcome.
#[derive(Debug, Clone, PartialEq, Eq)]
pub struct StorageFault {
    /// What the storage layer reported.
    pub message: String,
}

impl View for StorageFault {
    type V = Seq<char>;

    open spec fn view(&self) -> Seq<char> {
        self.message@
    }
}

/// The exceptional channel of the gateway: conditions that are propagated to
/// the transport layer rather than answered with one of the expected
/// replies.
#[derive(Debug, Clone, PartialEq, Eq)]
pub enum GatewayFault {
    /// The request body could not be parsed into the expected shape.
    MalformedBody,
    /// The persistence layer failed; surfaced immediately, never silently
    /// converted to "not found" or "forbidden".
    Storage(StorageFault),
}

/// Message sent with every `401`.
pub open spec fn login_required_msg() -> Seq<char> {
    "please log in first to access token information"@
}

/// Message sent with a name miss (`404`).
pub open spec fn token_not_found_msg() -> Seq<char> {
    "no token was found for the supplied name"@
}

/// Message sent with a secret miss (`403`).
pub open spec fn token_forbidden_msg() -> Seq<char> {
    "unauthorized access to this token"@
}

/// The sanitized view of a token record: the name, and an expiration that is
/// always emitted as absent by current lookups. There is no field for the
/// secret.
pub open spec fn spec_shaped_body(t: TokenView) -> ResponseBodyView {
    ResponseBodyView { name: t.name, expires_at: None }
}

/// The identity an entry point works with: the resolved principal's id, or
/// none for an anonymous caller.
pub open spec fn resolved_id(identity: Option<&Identity>) -> Option<int> {
    match identity {
        Some(author) => Some(author.author_id as int),
        None => None,
    }
}

/// The parse outcome of a request body, as the gateway sees it.
pub open spec fn parsed_body(body: Option<RequestBody>) -> Option<RequestBodyView> {
    match body {
        Some(b) => Some(b@),
        None => None,
    }
}

/// What the describe-by-name operation replies, for every identity, store
/// and name.
pub open spec fn spec_describe_by_name(
    identity: Option<int>,
    tokens: Seq<TokenView>,
    name: Seq<char>,
) -> ApiResponseView {
    match identity {
        None => ApiResponseView::Unauthorized(login_required_msg()),
        Some(owner_id) => match spec_find(tokens, owner_id, LookupKeyView::ByName(name)) {
            None => ApiResponseView::NotFound(token_not_found_msg()),
            Some(t) => ApiResponseView::Success(spec_shaped_body(t)),
        },
    }
}

/// What the describe-by-secret operation replies, for every identity, store
/// and parse outcome. The identity is checked before the body: an anonymous
/// caller is answered `401` even when the body is malformed.
pub open spec fn spec_describe_by_secret(
    identity: Option<int>,
    tokens: Seq<TokenView>,
    body: Option<RequestBodyView>,
) -> Result<ApiResponseView, GatewayFault> {
    match identity {
        None => Ok(ApiResponseView::Unauthorized(login_required_msg())),
        Some(owner_id) => match body {
            None => Err(GatewayFault::MalformedBody),
            Some(b) => match spec_find(tokens, owner_id, LookupKeyView::BySecret(b.token)) {
                None => Ok(ApiResponseView::Forbidden(token_forbidden_msg())),
                Some(t) => Ok(ApiResponseView::Success(spec_shaped_body(t))),
            },
        },
    }
}

/// Shape the sanitized view of a found record: the name is copied, the
/// expiration is always emitted as absent, and the secret is dropped.
pub fn shape_response(token: &TokenRecord) -> (r: ResponseBody)
    ensures
        r@ == spec_shaped_body(token@),
{
    ResponseBody { name: token.name.clone(), expires_at: None }
}

/// The reply for an anonymous caller, identical for both entry points.
pub fn unauthorized_response() -> (r: ApiResponse)
    ensures
        r@ == ApiResponseView::Unauthorized(login_required_msg()),
{
    ApiResponse::Unauthorized("please log in first to access token information".to_owned())
}

/// Conclude a name lookup: absence is a plain `404`, a hit is shaped.
pub fn respond_name_lookup(found: Option<&TokenRecord>) -> (r: ApiResponse)
    ensures
        match found {
            Some(t) => r@ == ApiResponseView::Success(spec_shaped_body(t@)),
            None => r@ == ApiResponseView::NotFound(token_not_found_msg()),
        },
{
    match found {
        Some(token) => ApiResponse::Success(shape_response(token)),
        None => ApiResponse::NotFound("no token was found for the supplied name".to_owned()),
    }
}

/// Conclude a secret lookup: absence is an authorization failure (`403`), a
/// hit is shaped.
pub fn respond_secret_lookup(found: Option<&TokenRecord>) -> (r: ApiResponse)
    ensures
        match found {
            Some(t) => r@ == ApiResponseView::Success(spec_shaped_body(t@)),
            None => r@ == ApiResponseView::Forbidden(token_forbidden_msg()),
        },
{
    match found {
        Some(token) => ApiResponse::Success(shape_response(token)),
        None => ApiResponse::Forbidden("unauthorized access to this token".to_owned()),
    }
}

/// Conclude a name lookup against a storage boundary that can fault: a fault
/// is propagated unchanged — never converted to a `404` — absence is `404`,
/// and a hit is shaped.
pub fn conclude_name_lookup(outcome: Result<Option<&TokenRecord>, StorageFault>) -> (r: Result<
    ApiResponse,
    GatewayFault,
>)
    ensures
        outcome matches Ok(Some(t)) ==> r matches Ok(resp) && resp@ == ApiResponseView::Success(
            spec_shaped_body(t@),
        ),
        outcome matches Ok(None) ==> r matches Ok(resp) && resp@ == ApiResponseView::NotFound(
            token_not_found_msg(),
        ),
        outcome matches Err(fault) ==> r matches Err(g) && g matches GatewayFault::Storage(inner)
            && inner@ == fault@,
{
    match outcome {
        Ok(found) => Ok(respond_name_lookup(found)),
        Err(fault) => Err(GatewayFault::Storage(fault)),
    }
}

/// Conclude a secret lookup against a storage boundary that can fault: a
/// fault is propagated unchanged — never converted to a `403` — absence is
/// `403`, and a hit is shaped.
pub fn conclude_secret_lookup(outcome: Result<Option<&TokenRecord>, StorageFault>) -> (r: Result<
    ApiResponse,
    GatewayFault,
>)
    ensures
        outcome matches Ok(Some(t)) ==> r matches Ok(resp) && resp@ == ApiResponseView::Success(
            spec_shaped_body(t@),
        ),
        outcome matches Ok(None) ==> r matches Ok(resp) && resp@ == ApiResponseView::Forbidden(
            token_forbidden_msg(),
        ),
        outcome matches Err(fault) ==> r matches Err(g) && g matches GatewayFault::Storage(inner)
            && inner@ == fault@,
{
    match outcome {
        Ok(found) => Ok(respond_secret_lookup(found)),
        Err(fault) => Err(GatewayFault::Storage(fault)),
    }
}

/// Describe one of the caller's own tokens by name.
///
/// Anonymous callers are rejected before any lookup; the lookup is scoped to
/// the caller, so another identity's token of the same name stays invisible.
pub fn describe_by_name(identity: Option<&Identity>, store: &TokenStore, name: &String) -> (r:
    ApiResponse)
    ensures
        r@ == spec_describe_by_name(resolved_id(identity), store@, name@),
{
    match identity {
        None => unauthorized_response(),
        Some(author) => {
            let found = store.find_by_name(author.author_id, name);
            respond_name_lookup(found)
        },
    }
}

/// Describe one of the caller's own tokens by its raw secret value, taken
/// from the parsed request body (`None` when the body failed to parse).
///
/// Anonymous callers are rejected first, before the body is even looked at;
/// a malformed body is then propagated as a fault, never answered with `403`
/// or `404`; and the lookup is scoped to the caller, so another identity's
/// secret resolves to nothing.
pub fn describe_by_secret(
    identity: Option<&Identity>,
    store: &TokenStore,
    body: Option<RequestBody>,
) -> (r: Result<ApiResponse, GatewayFault>)
    ensures
        (match r {
            Ok(resp) => spec_describe_by_secret(resolved_id(identity), store@, parsed_body(body))
                == Ok::<ApiResponseView, GatewayFault>(resp@),
            Err(fault) => spec_describe_by_secret(resolved_id(identity), store@, parsed_body(body))
                == Err::<ApiResponseView, GatewayFault>(fault),
        }),
{
    match identity {
        None => Ok(unauthorized_response()),
        Some(author) => match body {
            None => Err(GatewayFault::MalformedBody),
            Some(request) => {
                let found = store.find_by_secret(author.author_id, &request.token);
                Ok(respond_secret_lookup(found))
            },
        },
    }
}

} // verus!
