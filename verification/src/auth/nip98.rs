// NIP-98 HTTP authentication: stateless, event-based auth for REST endpoints.

use vstd::prelude::*;
use vstd::string::StringSliceAdditionalSpecFns;
use vstd::utf8::encode_utf8;

use crate::auth::keys::{nostr_public_key_hex, KeyManager};
use crate::encoding::{base64_encode, base64_standard, hex_encode, hex_lower, sha256, sha256_digest};
use crate::error::SproutError;
use crate::event::{lemma_filled_tags, pair_tag, signed_by_nostr, sign_event, tags_view, SignedEvent};
use crate::text::push_str;

verus! {

/// The kind of a NIP-98 HTTP auth event.
pub const HTTP_AUTH_KIND: u16 = 27235;

/// The `Authorization` value that carries a signed event: `Nostr ` and the
/// base64 of the event's JSON text (its UTF-8 bytes).
pub open spec fn nostr_header(json: Seq<char>) -> Seq<char> {
    "Nostr "@ + base64_standard(encode_utf8(json))
}

/// The `Authorization` value that carries a signed event.
pub fn header_for(signed: &SignedEvent) -> (r: String)
    ensures
        r@ == nostr_header(signed.json@),
{
    let encoded = base64_encode(signed.json.as_str().as_bytes());
    let mut r = String::new();
    push_str(&mut r, "Nostr ");
    push_str(&mut r, encoded.as_str());
    r
}

/// The tags of an HTTP auth event: the URL, the method, and, for a
/// non-empty body, the hex SHA-256 of the body.
pub open spec fn nip98_tags(url: Seq<char>, method: Seq<char>, body: Option<Seq<u8>>) -> Seq<Seq<Seq<char>>> {
    let base = seq![seq!["u"@, url], seq!["method"@, method]];
    match body {
        Some(b) => if b.len() > 0 {
            base.push(seq!["payload"@, hex_lower(sha256_digest(b))])
        } else {
            base
        },
        None => base,
    }
}

/// The view of an optional byte slice.
pub open spec fn opt_bytes_view(b: Option<&[u8]>) -> Option<Seq<u8>> {
    match b {
        Some(s) => Some(s@),
        None => None,
    }
}

/// The tags of an HTTP auth event.
pub fn nip98_event_tags(url: &str, method: &str, body: Option<&[u8]>) -> (r: Vec<Vec<String>>)
    ensures
        tags_view(r@) == nip98_tags(url@, method@, opt_bytes_view(body)),
{
    let mut tags: Vec<Vec<String>> = Vec::new();
    tags.push(pair_tag("u", url));
    tags.push(pair_tag("method", method));
    match body {
        Some(bytes) => {
            if bytes.len() > 0 {
                let digest = sha256(bytes);
                let hash = hex_encode(digest.as_slice());
                tags.push(pair_tag("payload", hash.as_str()));
            }
        },
        None => {},
    }
    assert forall|i: int| 0 <= i < tags@.len() implies crate::event::tag_view(tags@[i]) =~= nip98_tags(
        url@,
        method@,
        opt_bytes_view(body),
    )[i] by {}
    assert(tags_view(tags@) =~= nip98_tags(url@, method@, opt_bytes_view(body)));
    tags
}

/// `s` is an HTTP auth event by the key `secret` for `method` on `url`: a
/// kind 27235 event with empty content and the NIP-98 tags, signed as nostr
/// signs it, with its own JSON text.
pub open spec fn is_http_auth_event(s: SignedEvent, secret: Seq<u8>, url: Seq<char>, method: Seq<char>, body: Option<Seq<u8>>) -> bool {
    &&& s.event.kind == HTTP_AUTH_KIND
    &&& s.event.content@ == ""@
    &&& tags_view(s.event.tags@) == nip98_tags(url, method, body)
    &&& s.event.pubkey@ == nostr_public_key_hex(secret)
    &&& signed_by_nostr(s)
}

/// An HTTP auth event names the request it authorizes: it is a kind 27235
/// event with empty content by the key's public key, its first tag is
/// `["u", url]`, its second is `["method", method]` for whatever method is
/// given, and it has a third tag `["payload", <hex SHA-256 of the body>]`
/// exactly when the body is non-empty.
pub proof fn law_http_auth_event_names_request(
    s: SignedEvent,
    secret: Seq<u8>,
    url: Seq<char>,
    method: Seq<char>,
    body: Option<Seq<u8>>,
)
    requires
        is_http_auth_event(s, secret, url, method, body),
    ensures
        s.event.kind == 27235,
        s.event.content@.len() == 0,
        s.event.pubkey@ == nostr_public_key_hex(secret),
        tags_view(s.event.tags@)[0] == seq!["u"@, url],
        tags_view(s.event.tags@)[1] == seq!["method"@, method],
        match body {
            Some(b) => if b.len() > 0 {
                &&& tags_view(s.event.tags@).len() == 3
                &&& tags_view(s.event.tags@)[2] == seq!["payload"@, hex_lower(sha256_digest(b))]
            } else {
                tags_view(s.event.tags@).len() == 2
            },
            None => tags_view(s.event.tags@).len() == 2,
        },
{
    reveal_strlit("");
}

/// Builds a NIP-98 `Authorization: Nostr <base64>` header value: a kind 27235
/// event signed by the key, tagged with the URL, the method and (for a
/// non-empty body) the body's SHA-256. It always succeeds.
pub fn build_nip98_auth_header(keys: &KeyManager, url: &str, method: &str, body: Option<&[u8]>) -> (r: Result<String, SproutError>)
    ensures
        r matches Ok(h) && exists|s: SignedEvent|
            is_http_auth_event(s, keys.secret(), url@, method@, opt_bytes_view(body)) && h@ == nostr_header(
                #[trigger] s.json@,
            ),
{
    let tags = nip98_event_tags(url, method, body);
    proof {
        lemma_filled_tags(tags@);
    }
    match sign_event(keys, HTTP_AUTH_KIND, "", tags) {
        Ok(s) => {
            let h = header_for(&s);
            assert(is_http_auth_event(s, keys.secret(), url@, method@, opt_bytes_view(body)));
            Ok(h)
        },
        Err(e) => {
            let mut m = String::new();
            push_str(&mut m, "NIP-98 signing failed: ");
            push_str(&mut m, e.as_str());
            assert(m@ == "NIP-98 signing failed: "@ + e@);
            Err(SproutError::InvalidKey { message: m })
        },
    }
}

} // verus!
