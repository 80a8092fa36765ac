//! Data model: the authenticated identity, the token record held in storage,
//! and the request/response bodies exchanged with clients.

use vstd::prelude::*;

verus! {

/// An authenticated principal. Resolved per-request by the session layer;
/// this core only reads it.
#[derive(Debug, Clone, Copy, PartialEq, Eq)]
pub struct Identity {
    /// Opaque identifier of the principal.
    pub author_id: i64,
}

/// One API credential: a human-chosen label (unique per owner, not
/// globally), the raw secret value presented by clients, the exclusive
/// owner, and an optional expiration timestamp.
#[derive(Debug, Clone, PartialEq, Eq)]
pub struct TokenRecord {
    /// Human-chosen label, unique per identity.
    pub name: String,
    /// Raw credential value; sensitive, never echoed back in responses.
    pub secret: String,
    /// The identity that owns this token; ownership is exclusive.
    pub owner_id: i64,
    /// Optional expiration timestamp (not surfaced by current lookups).
    pub expires_at: Option<String>,
}

/// Mathematical image of a [`TokenRecord`].
pub ghost struct TokenView {
    pub name: Seq<char>,
    pub secret: Seq<char>,
    pub owner_id: int,
    pub expires_at: Option<Seq<char>>,
}

impl View for TokenRecord {
    type V = TokenView;

    open spec fn view(&self) -> TokenView {
        TokenView {
            name: self.name@,
            secret: self.secret@,
            owner_id: self.owner_id as int,
            expires_at: match self.expires_at {
                Some(s) => Some(s@),
                None => None,
            },
        }
    }
}

/// Request body for the describe-by-secret operation.
#[derive(Debug, Clone, PartialEq, Eq)]
pub struct RequestBody {
    /// The registry token to get information about.
    pub token: String,
}

/// Mathematical image of a [`RequestBody`].
pub ghost struct RequestBodyView {
    pub token: Seq<char>,
}

impl View for RequestBody {
    type V = RequestBodyView;

    open spec fn view(&self) -> RequestBodyView {
        RequestBodyView { token: self.token@ }
    }
}

/// Response body returned on a successful lookup. It deliberately has no
/// field for the secret value.
#[derive(Debug, Clone, PartialEq, Eq)]
pub struct ResponseBody {
    /// The token name.
    pub name: String,
    /// The expiration date for this token.
    pub expires_at: Option<String>,
}

/// Mathematical image of a [`ResponseBody`].
pub ghost struct ResponseBodyView {
    pub name: Seq<char>,
    pub expires_at: Option<Seq<char>>,
}

impl View for ResponseBody {
    type V = ResponseBodyView;

    open spec fn view(&self) -> ResponseBodyView {
        ResponseBodyView {
            name: self.name@,
            expires_at: match self.expires_at {
                Some(s) => Some(s@),
                None => None,
            },
        }
    }
}

} // verus!
