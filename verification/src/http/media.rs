// Blossom media upload (BUD-02 / BUD-11): the blob's SHA-256, the kind
// 24242 auth event that authorizes the upload, and the blob descriptor the
// server answers with.

use vstd::prelude::*;

use crate::auth::keys::{nostr_public_key_hex, KeyManager};
use crate::auth::nip98::{header_for, nostr_header};
use crate::encoding::{hex_encode, hex_lower, sha256, sha256_digest};
use crate::error::SproutError;
use crate::event::{lemma_filled_tags, pair_tag, signed_by_nostr, sign_event, tags_view, SignedEvent};
use crate::json::{json_get, opt_view, or_default, str_member, u64_member, JsonValue};
use crate::text::{decimal, format_u64, push_str};
use crate::types::MediaUploadResult;

verus! {

/// The kind of a Blossom auth event.
pub const BLOSSOM_AUTH_KIND: u16 = 24242;

/// How long an upload authorization stays valid, in seconds.
pub const UPLOAD_AUTH_LIFETIME_SECS: u64 = 300;

/// Calls `nostr::types::Timestamp::now().as_secs()`: the current Unix time in
/// seconds, as the system clock has it. Nothing is stated of it.
#[verifier::external_body]
fn nostr_now() -> (r: u64) {
    nostr::types::Timestamp::now().as_secs()
}

/// The tags of an upload auth event: the verb `upload`, the blob's hash and
/// the expiration time in decimal.
pub open spec fn blossom_tags(sha256_hex: Seq<char>, expiration: u64) -> Seq<Seq<Seq<char>>> {
    seq![
        seq!["t"@, "upload"@],
        seq!["x"@, sha256_hex],
        seq!["expiration"@, decimal(expiration as nat)],
    ]
}

/// The tags of an upload auth event.
pub fn blossom_event_tags(sha256_hex: &str, expiration: u64) -> (r: Vec<Vec<String>>)
    ensures
        tags_view(r@) == blossom_tags(sha256_hex@, expiration),
{
    let exp = format_u64(expiration);
    let tags = vec![pair_tag("t", "upload"), pair_tag("x", sha256_hex), pair_tag("expiration", exp.as_str())];
    assert forall|i: int| 0 <= i < tags@.len() implies crate::event::tag_view(tags@[i]) =~= blossom_tags(
        sha256_hex@,
        expiration,
    )[i] by {}
    assert(tags_view(tags@) =~= blossom_tags(sha256_hex@, expiration));
    tags
}

/// `s` is an upload auth event by the key `secret` for the blob with hash
/// `sha256_hex`, valid until `expiration`: a kind 24242 event with the
/// upload tags, signed as nostr signs it, with its own JSON text.
pub open spec fn is_upload_auth_event(s: SignedEvent, secret: Seq<u8>, sha256_hex: Seq<char>, expiration: u64) -> bool {
    &&& s.event.kind == BLOSSOM_AUTH_KIND
    &&& s.event.content@ == "Upload sprout-mobile"@
    &&& tags_view(s.event.tags@) == blossom_tags(sha256_hex, expiration)
    &&& s.event.pubkey@ == nostr_public_key_hex(secret)
    &&& signed_by_nostr(s)
}

/// An upload auth event authorizes the upload of exactly the blob it names:
/// it is a kind 24242 event with content `Upload sprout-mobile` by the key's
/// public key, and its tags are `["t", "upload"]`, `["x", sha256_hex]` and
/// `["expiration", <expiration in decimal>]`, in that order.
pub proof fn law_upload_auth_event_names_blob(s: SignedEvent, secret: Seq<u8>, sha256_hex: Seq<char>, expiration: u64)
    requires
        is_upload_auth_event(s, secret, sha256_hex, expiration),
    ensures
        s.event.kind == 24242,
        s.event.content@ == "Upload sprout-mobile"@,
        s.event.pubkey@ == nostr_public_key_hex(secret),
        tags_view(s.event.tags@).len() == 3,
        tags_view(s.event.tags@)[0] == seq!["t"@, "upload"@],
        tags_view(s.event.tags@)[1] == seq!["x"@, sha256_hex],
        tags_view(s.event.tags@)[2] == seq!["expiration"@, decimal(expiration as nat)],
{
}

/// An upload authorized at Unix time `now` expires 300 seconds later: it is
/// refused exactly when that time does not fit in 64 bits, and otherwise
/// its header carries an upload auth event for the blob that expires at
/// `now + 300`.
pub proof fn law_upload_expires_after_five_minutes(r: Result<String, SproutError>, secret: Seq<u8>, sha256_hex: Seq<char>, now: u64)
    requires
        upload_auth_at(r, secret, sha256_hex, now),
    ensures
        r is Ok <==> now + 300 <= u64::MAX,
        r matches Ok(h) ==> exists|s: SignedEvent|
            is_upload_auth_event(s, secret, sha256_hex, (now + 300) as u64) && h@ == nostr_header(#[trigger] s.json@),
{
}

/// The message of the error for a clock too far ahead to write the
/// expiration.
pub open spec fn clock_overflow_text() -> Seq<char> {
    "clock is past the last representable expiration"@
}

/// What building an upload authorization at Unix time `now` gives: when
/// `now` plus [`UPLOAD_AUTH_LIFETIME_SECS`] does not fit in 64 bits, the
/// clock error; otherwise the `Nostr` header of an upload auth event valid
/// until that time.
pub open spec fn upload_auth_at(r: Result<String, SproutError>, secret: Seq<u8>, sha256_hex: Seq<char>, now: u64) -> bool {
    if now > u64::MAX - UPLOAD_AUTH_LIFETIME_SECS {
        r matches Err(SproutError::InternalError { message }) && message@ == clock_overflow_text()
    } else {
        r matches Ok(h) && exists|s: SignedEvent|
            is_upload_auth_event(s, secret, sha256_hex, (now + UPLOAD_AUTH_LIFETIME_SECS) as u64) && h@
                == nostr_header(#[trigger] s.json@)
    }
}

/// The `Authorization` header of an upload made at Unix time `now`: a kind
/// 24242 event with content `Upload sprout-mobile`, tagged with the blob's
/// hash and an expiration five minutes after `now`; a `now` too large for
/// that expiration is an internal error.
pub fn build_blossom_auth_at(keys: &KeyManager, sha256_hex: &str, now: u64) -> (r: Result<String, SproutError>)
    ensures
        upload_auth_at(r, keys.secret(), sha256_hex@, now),
{
    if now > u64::MAX - UPLOAD_AUTH_LIFETIME_SECS {
        return Err(
            SproutError::InternalError { message: "clock is past the last representable expiration".to_string() },
        );
    }
    let expiration = now + UPLOAD_AUTH_LIFETIME_SECS;
    let tags = blossom_event_tags(sha256_hex, expiration);
    proof {
        lemma_filled_tags(tags@);
    }
    match sign_event(keys, BLOSSOM_AUTH_KIND, "Upload sprout-mobile", tags) {
        Ok(s) => {
            let h = header_for(&s);
            assert(is_upload_auth_event(s, keys.secret(), sha256_hex@, expiration));
            Ok(h)
        },
        Err(e) => {
            let mut m = "Blossom auth signing failed: ".to_string();
            push_str(&mut m, e.as_str());
            Err(SproutError::InvalidKey { message: m })
        },
    }
}

/// The `Authorization` header of an upload made now: what
/// [`build_blossom_auth_at`] gives for the clock's current reading.
pub fn build_blossom_auth(keys: &KeyManager, sha256_hex: &str) -> (r: Result<String, SproutError>)
    ensures
        exists|now: u64| #[trigger] upload_auth_at(r, keys.secret(), sha256_hex@, now),
{
    let now = nostr_now();
    let r = build_blossom_auth_at(keys, sha256_hex, now);
    assert(upload_auth_at(r, keys.secret(), sha256_hex@, now));
    r
}

/// The header part of a prepared upload.
pub open spec fn header_part(r: Result<(String, String), SproutError>) -> Result<String, SproutError> {
    match r {
        Ok((_, h)) => Ok(h),
        Err(e) => Err(e),
    }
}

/// What an upload sends besides the bytes: the blob's SHA-256 in lowercase
/// hex and the `Authorization` header for it, as [`build_blossom_auth`]
/// makes it for the clock's current reading.
pub fn prepare_upload(keys: &KeyManager, bytes: &[u8]) -> (r: Result<(String, String), SproutError>)
    ensures
        r matches Ok((hash, _)) ==> hash@ == hex_lower(sha256_digest(bytes@)),
        exists|now: u64|
            #[trigger] upload_auth_at(header_part(r), keys.secret(), hex_lower(sha256_digest(bytes@)), now),
{
    let digest = sha256(bytes);
    let hash = hex_encode(digest.as_slice());
    let built = build_blossom_auth(keys, hash.as_str());
    let r = match built {
        Ok(header) => Ok((hash, header)),
        Err(e) => Err(e),
    };
    assert(header_part(r) == built);
    r
}

/// The blob descriptor of an upload answer: `url` (empty when absent),
/// `sha256` (the uploaded hash when absent), `size` (0 when absent), `type`
/// (`application/octet-stream` when absent), and the optional `dim`,
/// `blurhash` and `thumb`.
pub open spec fn upload_result_read(r: MediaUploadResult, json: JsonValue, sha256_hex: Seq<char>) -> bool {
    &&& r.url@ == or_default(str_member(json, "url"@), ""@)
    &&& r.sha256@ == or_default(str_member(json, "sha256"@), sha256_hex)
    &&& r.size == match u64_member(json, "size"@) {
        Some(n) => n,
        None => 0,
    }
    &&& r.mime_type@ == or_default(str_member(json, "type"@), "application/octet-stream"@)
    &&& opt_view(r.dimensions) == str_member(json, "dim"@)
    &&& opt_view(r.blurhash) == str_member(json, "blurhash"@)
    &&& opt_view(r.thumbnail_url) == str_member(json, "thumb"@)
}

/// The string under `key`, or `default`.
fn text_or(json: &JsonValue, key: &str, default: &str) -> (r: String)
    ensures
        r@ == or_default(str_member(*json, key@), default@),
{
    match json.str_member(key) {
        Some(s) => s,
        None => default.to_string(),
    }
}

/// The blob descriptor of the answer to an upload of the blob with hash
/// `sha256_hex`.
pub fn upload_result(json: &JsonValue, sha256_hex: &str) -> (r: MediaUploadResult)
    ensures
        upload_result_read(r, *json, sha256_hex@),
{
    MediaUploadResult {
        url: text_or(json, "url", ""),
        sha256: text_or(json, "sha256", sha256_hex),
        size: match json.u64_member("size") {
            Some(n) => n,
            None => 0,
        },
        mime_type: text_or(json, "type", "application/octet-stream"),
        dimensions: json.str_member("dim"),
        blurhash: json.str_member("blurhash"),
        thumbnail_url: json.str_member("thumb"),
    }
}

} // verus!
