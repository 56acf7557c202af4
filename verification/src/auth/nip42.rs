// NIP-42 WebSocket authentication: signing the answer to a relay challenge.

use vstd::prelude::*;

use crate::auth::keys::{nostr_public_key_hex, KeyManager};
use crate::error::SproutError;
use crate::event::{lemma_filled_tags, pair_tag, signed_by_nostr, sign_event, tags_view, SignedEvent};
use crate::text::push_str;

verus! {

/// The serialization that the `url` crate gives a parsed URL, or the text of
/// the error it reports.
pub uninterp spec fn url_parse(text: Seq<char>) -> Result<Seq<char>, Seq<char>>;

/// The `url` crate parses `text` into the URL serialized as `url`.
pub open spec fn url_parsed_as(text: Seq<char>, url: Seq<char>) -> bool {
    url_parse(text) == Ok::<Seq<char>, Seq<char>>(url)
}

/// The `url` crate rejects `text` with the message `msg`.
pub open spec fn url_rejected_with(text: Seq<char>, msg: Seq<char>) -> bool {
    url_parse(text) == Err::<Seq<char>, Seq<char>>(msg)
}

/// Calls `url::Url::parse` and takes `as_str()` of the result (or the error's
/// text). Claims only that the outcome is `url_parse` of the text.
#[verifier::external_body]
pub(crate) fn parse_url(text: &str) -> (r: Result<String, String>)
    ensures
        r is Ok <==> url_parse(text@) is Ok,
        r matches Ok(u) ==> url_parsed_as(text@, u@),
        r matches Err(e) ==> url_rejected_with(text@, e@),
{
    match url::Url::parse(text) {
        Ok(u) => Ok(u.as_str().to_string()),
        Err(e) => Err(e.to_string()),
    }
}

/// The kind of a NIP-42 authentication event.
pub const AUTH_EVENT_KIND: u16 = 22242;

/// The tags of an authentication event: the relay, the challenge, and the API
/// token when there is one.
pub open spec fn auth_tags(relay: Seq<char>, challenge: Seq<char>, token: Option<Seq<char>>) -> Seq<Seq<Seq<char>>> {
    let base = seq![seq!["relay"@, relay], seq!["challenge"@, challenge]];
    match token {
        Some(t) => base.push(seq!["auth_token"@, t]),
        None => base,
    }
}

/// The view of an optional string slice.
pub open spec fn opt_str_view(s: Option<&str>) -> Option<Seq<char>> {
    match s {
        Some(t) => Some(t@),
        None => None,
    }
}

/// The tags of an authentication event.
pub fn auth_event_tags(relay: &str, challenge: &str, api_token: Option<&str>) -> (r: Vec<Vec<String>>)
    ensures
        tags_view(r@) == auth_tags(relay@, challenge@, opt_str_view(api_token)),
{
    let mut tags: Vec<Vec<String>> = Vec::new();
    tags.push(pair_tag("relay", relay));
    tags.push(pair_tag("challenge", challenge));
    match api_token {
        Some(token) => tags.push(pair_tag("auth_token", token)),
        None => {},
    }
    assert forall|i: int| 0 <= i < tags@.len() implies crate::event::tag_view(tags@[i]) =~= auth_tags(
        relay@,
        challenge@,
        opt_str_view(api_token),
    )[i] by {}
    assert(tags_view(tags@) =~= auth_tags(relay@, challenge@, opt_str_view(api_token)));
    tags
}

/// `s` answers `challenge` from the relay at (normalized) `relay` as the key
/// `secret`: a kind 22242 event with empty content and the relay, challenge
/// and token tags, signed as nostr signs it, with its own JSON text.
pub open spec fn is_auth_event(s: SignedEvent, secret: Seq<u8>, relay: Seq<char>, challenge: Seq<char>, token: Option<Seq<char>>) -> bool {
    &&& s.event.kind == AUTH_EVENT_KIND
    &&& s.event.content@ == ""@
    &&& tags_view(s.event.tags@) == auth_tags(relay, challenge, token)
    &&& s.event.pubkey@ == nostr_public_key_hex(secret)
    &&& signed_by_nostr(s)
}

/// An AUTH event answers the challenge it was made for: it is a kind 22242
/// event with empty content by the key's public key, its first tag is
/// `["relay", relay]`, its second `["challenge", challenge]`, and it has a
/// third tag `["auth_token", token]` exactly when a token is given.
pub proof fn law_auth_event_answers_challenge(
    s: SignedEvent,
    secret: Seq<u8>,
    relay: Seq<char>,
    challenge: Seq<char>,
    token: Option<Seq<char>>,
)
    requires
        is_auth_event(s, secret, relay, challenge, token),
    ensures
        s.event.kind == 22242,
        s.event.content@.len() == 0,
        s.event.pubkey@ == nostr_public_key_hex(secret),
        tags_view(s.event.tags@)[0] == seq!["relay"@, relay],
        tags_view(s.event.tags@)[1] == seq!["challenge"@, challenge],
        token matches Some(t) ==> (tags_view(s.event.tags@).len() == 3 && tags_view(s.event.tags@)[2]
            == seq!["auth_token"@, t]),
        token is None ==> tags_view(s.event.tags@).len() == 2,
{
    reveal_strlit("");
}

/// `prefix` followed by `detail`.
fn message(prefix: &str, detail: &str) -> (r: String)
    ensures
        r@ == prefix@ + detail@,
{
    let mut r = String::new();
    push_str(&mut r, prefix);
    push_str(&mut r, detail);
    r
}

/// Builds a signed NIP-42 AUTH event (kind 22242) answering a relay
/// challenge, ready to send as `["AUTH", <event>]`. The relay URL is
/// normalized by the `url` crate; an unparsable URL is an internal error,
/// and any other relay URL gives the signed event.
pub fn build_auth_event(keys: &KeyManager, challenge: &str, relay_url: &str, api_token: Option<&str>) -> (r: Result<SignedEvent, SproutError>)
    ensures
        match url_parse(relay_url@) {
            Err(e) => r matches Err(SproutError::InternalError { message }) && message@
                == "invalid relay URL: "@ + e,
            Ok(relay) => r matches Ok(s) && is_auth_event(s, keys.secret(), relay, challenge@, opt_str_view(api_token)),
        },
{
    let relay = match parse_url(relay_url) {
        Ok(u) => u,
        Err(e) => {
            return Err(SproutError::InternalError { message: message("invalid relay URL: ", e.as_str()) });
        },
    };
    let tags = auth_event_tags(relay.as_str(), challenge, api_token);
    proof {
        lemma_filled_tags(tags@);
    }
    match sign_event(keys, AUTH_EVENT_KIND, "", tags) {
        Ok(s) => Ok(s),
        Err(e) => {
            let m = message("NIP-42 signing failed: ", e.as_str());
            assert(m@ == "NIP-42 signing failed: "@ + e@);
            Err(SproutError::InvalidKey { message: m })
        },
    }
}

} // verus!
