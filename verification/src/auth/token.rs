// API tokens: the mint request, the mint response, and what the local cache
// keeps of a token and its expiry.

use vstd::prelude::*;

use crate::error::SproutError;
use crate::json::{
    array_member, json_str, lemma_lookup_at, str_member, text_value, u64_member, JsonNumber, JsonValue,
};
use crate::text::{format_i64, lemma_parse_signed_decimal, parse_i64, parse_i64_spec, signed_decimal};
use crate::time::{parse_rfc3339_seconds, rfc3339_seconds};

verus! {

/// Cache key of the API token.
pub const KV_API_TOKEN: &'static str = "api_token";

/// Cache key of the token's expiry (Unix seconds, in decimal).
pub const KV_TOKEN_EXPIRES_AT: &'static str = "api_token_expires_at";

/// The scopes requested for a minted token.
pub open spec fn mint_scopes() -> Seq<Seq<char>> {
    seq![
        "messages:read"@,
        "messages:write"@,
        "channels:read"@,
        "channels:write"@,
        "users:read"@,
        "users:write"@,
        "files:read"@,
        "files:write"@,
    ]
}

/// The JSON body of a token mint request: the token's name, the scopes of
/// [`mint_scopes`], and a lifetime of 7 days.
pub fn mint_token_body(name: &str) -> (r: JsonValue)
    ensures
        str_member(r, "name"@) == Some(name@),
        array_member(r, "scopes"@) matches Some(items) && items.len() == mint_scopes().len() && (
        forall|i: int| 0 <= i < items.len() ==> json_str(#[trigger] items[i]) == Some(mint_scopes()[i])),
        u64_member(r, "expires_in_days"@) == Some(7u64),
{
    let scopes: Vec<JsonValue> = vec![
        text_value("messages:read"),
        text_value("messages:write"),
        text_value("channels:read"),
        text_value("channels:write"),
        text_value("users:read"),
        text_value("users:write"),
        text_value("files:read"),
        text_value("files:write"),
    ];
    let fields: Vec<(String, JsonValue)> = vec![
        ("name".to_string(), text_value(name)),
        ("scopes".to_string(), JsonValue::Array(scopes)),
        ("expires_in_days".to_string(), JsonValue::Number(JsonNumber::PosInt(7))),
    ];
    proof {
        reveal_strlit("name");
        reveal_strlit("scopes");
        reveal_strlit("expires_in_days");
        let f = fields@;
        assert("name"@[0] != "scopes"@[0]);
        assert("name"@[0] != "expires_in_days"@[0]);
        assert("scopes"@[0] != "expires_in_days"@[0]);
        lemma_lookup_at(f, 0, "name"@);
        lemma_lookup_at(f, 1, "scopes"@);
        lemma_lookup_at(f, 2, "expires_in_days"@);
        assert forall|i: int| 0 <= i < scopes@.len() implies json_str(#[trigger] scopes@[i])
            == Some(mint_scopes()[i]) by {}
    }
    JsonValue::Object(fields)
}

/// The token and expiry that a mint response carries: the string under
/// `token` (an auth failure when missing) and the Unix time of the RFC 3339
/// timestamp under `expires_at`, as chrono reads it.
pub open spec fn mint_outcome(json: JsonValue, r: Result<(String, Option<i64>), SproutError>) -> bool {
    match str_member(json, "token"@) {
        Some(t) => r matches Ok((token, expires_at)) && token@ == t && expires_at == match str_member(
            json,
            "expires_at"@,
        ) {
            Some(s) => rfc3339_seconds(s),
            None => None,
        },
        None => r matches Err(SproutError::AuthFailed { message }) && message@
            == "mint response missing 'token' field"@,
    }
}

/// Extracts the token and its expiry from a mint response.
pub fn parse_mint_response(json: &JsonValue) -> (r: Result<(String, Option<i64>), SproutError>)
    ensures
        mint_outcome(*json, r),
{
    let token = match json.str_member("token") {
        Some(t) => t,
        None => {
            return Err(
                SproutError::AuthFailed { message: "mint response missing 'token' field".to_string() },
            );
        },
    };
    let expires_at = match json.get("expires_at") {
        Some(m) => match m.as_str() {
            Some(s) => parse_rfc3339_seconds(s),
            None => None,
        },
        None => None,
    };
    Ok((token, expires_at))
}

/// What the cache keeps under [`KV_TOKEN_EXPIRES_AT`] when a token is saved:
/// the expiry in decimal, or nothing (the entry is deleted).
pub open spec fn expiry_entry_spec(expires_at: Option<i64>) -> Option<Seq<char>> {
    match expires_at {
        Some(t) => Some(signed_decimal(t as int)),
        None => None,
    }
}

/// What to store under [`KV_TOKEN_EXPIRES_AT`] when saving a token; `None`
/// means the entry is deleted.
pub fn expiry_entry(expires_at: Option<i64>) -> (r: Option<String>)
    ensures
        crate::json::opt_view(r) == expiry_entry_spec(expires_at),
{
    match expires_at {
        Some(t) => Some(format_i64(t)),
        None => None,
    }
}

/// What loading the cached token finds.
#[derive(Debug, Clone)]
pub enum CachedToken {
    /// No token is cached.
    Missing,
    /// The token has expired; the cache is to be cleared.
    Expired,
    /// The token is usable.
    Valid(String),
}

/// The verdict on a cached token and expiry entry at time `now`: a token
/// whose expiry entry reads as an `i64` no later than `now` has expired; an
/// unreadable or missing entry does not expire the token.
pub open spec fn cached_token_spec(token: Option<Seq<char>>, expiry: Option<Seq<char>>, now: i64) -> Option<Option<Seq<char>>> {
    match token {
        None => None,
        Some(t) => match expiry {
            Some(e) => match parse_i64_spec(e) {
                Some(at) => if now >= at {
                    Some(None)
                } else {
                    Some(Some(t))
                },
                None => Some(Some(t)),
            },
            None => Some(Some(t)),
        },
    }
}

/// The verdict as a [`CachedToken`] view: `None` missing, `Some(None)`
/// expired, `Some(Some(t))` valid.
pub open spec fn cached_view(c: CachedToken) -> Option<Option<Seq<char>>> {
    match c {
        CachedToken::Missing => None,
        CachedToken::Expired => Some(None),
        CachedToken::Valid(t) => Some(Some(t@)),
    }
}

/// Decides what loading the cached token gives, from what the cache holds
/// under [`KV_API_TOKEN`] and [`KV_TOKEN_EXPIRES_AT`] and the current time.
pub fn cached_token(token: Option<String>, expiry: Option<String>, now: i64) -> (r: CachedToken)
    ensures
        cached_view(r) == cached_token_spec(crate::json::opt_view(token), crate::json::opt_view(expiry), now),
{
    match token {
        None => CachedToken::Missing,
        Some(t) => match expiry {
            Some(e) => match parse_i64(e.as_str()) {
                Some(at) => if now >= at {
                    CachedToken::Expired
                } else {
                    CachedToken::Valid(t)
                },
                None => CachedToken::Valid(t),
            },
            None => CachedToken::Valid(t),
        },
    }
}

/// A token saved with an expiry is loaded back while the expiry lies in the
/// future and found expired from then on; a token saved without an expiry is
/// always loaded back.
pub proof fn law_token_cache_roundtrip(token: Seq<char>, expires_at: Option<i64>, now: i64)
    ensures
        cached_token_spec(Some(token), expiry_entry_spec(expires_at), now) == match expires_at {
            Some(at) => if now >= at {
                Some(None::<Seq<char>>)
            } else {
                Some(Some(token))
            },
            None => Some(Some(token)),
        },
{
    if let Some(at) = expires_at {
        lemma_parse_signed_decimal(at);
    }
}

} // verus!
