// The relay's REST API: its base URL, request paths and headers, how a
// response is read, and what each endpoint's answer is turned into.

use vstd::prelude::*;
use vstd::string::StrSliceExecFns;

use crate::error::SproutError;
use crate::json::{json_get, json_str, JsonValue};
use crate::text::{chars_of, has_prefix, push_str, replace_all, replace_chars, string_of, trim_end_char, trim_end_chars};

/// Blossom media upload: hashing, the upload auth event, the blob descriptor.
pub mod media;
/// Request paths and bodies of the REST endpoints.
pub mod paths;
/// What each endpoint's JSON answer is turned into.
pub mod responses;

verus! {

/// The HTTP base URL of a relay: `wss://` becomes `https://`, `ws://`
/// becomes `http://`, and trailing slashes are dropped.
pub open spec fn normalized_url(url: Seq<char>) -> Seq<char> {
    trim_end_char(replace_all(replace_all(url, "wss://"@, "https://"@), "ws://"@, "http://"@), '/')
}

/// `p` occurs nowhere in `s`.
pub open spec fn absent(s: Seq<char>, p: Seq<char>) -> bool {
    forall|i: int| 0 <= i && i + p.len() <= s.len() ==> #[trigger] s.subrange(i, i + p.len()) != p
}

/// Replacing a pattern that does not occur changes nothing.
proof fn lemma_replace_absent(s: Seq<char>, from: Seq<char>, to: Seq<char>)
    requires
        from.len() > 0,
        absent(s, from),
    ensures
        replace_all(s, from, to) == s,
    decreases s.len(),
{
    if s.len() >= from.len() {
        let z: int = 0;
        assert(s.subrange(z, z + from.len()) != from);
        assert(s.subrange(0, from.len() as int) =~= s.take(from.len() as int));
        let rest = s.skip(1);
        assert forall|i: int| 0 <= i && i + from.len() <= rest.len() implies #[trigger] rest.subrange(
            i,
            i + from.len(),
        ) != from by {
            assert(rest.subrange(i, i + from.len()) == s.subrange(i + 1, i + 1 + from.len()));
        }
        lemma_replace_absent(rest, from, to);
        assert(seq![s[0]] + rest =~= s);
    }
}

/// A URL that names no WebSocket scheme and does not end in a slash is
/// already an HTTP base URL: normalizing it leaves it as it is.
pub proof fn law_http_url_unchanged(url: Seq<char>)
    requires
        absent(url, "wss://"@),
        absent(url, "ws://"@),
        url.len() == 0 || url.last() != '/',
    ensures
        normalized_url(url) == url,
{
    reveal_strlit("wss://");
    reveal_strlit("ws://");
    lemma_replace_absent(url, "wss://"@, "https://"@);
    lemma_replace_absent(url, "ws://"@, "http://"@);
}

/// A replacement output that begins with `q`, where `q` holds no first
/// character of the replacement, comes from an input that begins with `q`.
proof fn lemma_replace_prefix(x: Seq<char>, from: Seq<char>, to: Seq<char>, q: Seq<char>)
    requires
        from.len() > 0,
        to.len() > 0,
        forall|j: int| 0 <= j < q.len() ==> q[j] != to[0],
        has_prefix(replace_all(x, from, to), q),
    ensures
        has_prefix(x, q),
    decreases x.len(),
{
    let out = replace_all(x, from, to);
    if q.len() == 0 {
        assert(x.take(0) =~= q);
    } else if x.len() < from.len() {
        assert(out == x);
    } else if x.take(from.len() as int) == from {
        assert(out == to + replace_all(x.skip(from.len() as int), from, to));
        assert(out[0] == to[0]);
        assert(out.take(q.len() as int)[0] == q[0]);
    } else {
        let rest = replace_all(x.skip(1), from, to);
        assert(out == seq![x[0]] + rest);
        assert(out.take(q.len() as int)[0] == out[0]);
        assert(x[0] == q[0]);
        assert(rest.take(q.len() - 1) =~= out.take(q.len() as int).skip(1));
        assert(forall|j: int| 0 <= j < q.skip(1).len() ==> q.skip(1)[j] == q[j + 1]);
        lemma_replace_prefix(x.skip(1), from, to, q.skip(1));
        assert(x.take(q.len() as int) =~= seq![x[0]] + x.skip(1).take(q.len() - 1));
        assert(q =~= seq![q[0]] + q.skip(1));
    }
}

/// Replacing `from` by `to` leaves no occurrence of `pat` in the output when
/// `pat` is `from` itself or does not occur in the input, no character of
/// `to` starts `pat`, and the first character of `to` occurs nowhere else in
/// `pat`.
proof fn lemma_replace_leaves_absent(s: Seq<char>, from: Seq<char>, to: Seq<char>, pat: Seq<char>)
    requires
        from.len() > 0,
        to.len() > 0,
        pat.len() > 0,
        pat == from || absent(s, pat),
        forall|j: int| 0 <= j < to.len() ==> to[j] != pat[0],
        forall|j: int| 1 <= j < pat.len() ==> pat[j] != to[0],
    ensures
        absent(replace_all(s, from, to), pat),
    decreases s.len(),
{
    let out = replace_all(s, from, to);
    if s.len() < from.len() {
        if pat == from {
            assert forall|i: int| 0 <= i && i + pat.len() <= out.len() implies #[trigger] out.subrange(
                i,
                i + pat.len(),
            ) != pat by {}
        }
    } else if s.take(from.len() as int) == from {
        let rest = s.skip(from.len() as int);
        if pat != from {
            assert forall|i: int| 0 <= i && i + pat.len() <= rest.len() implies #[trigger] rest.subrange(
                i,
                i + pat.len(),
            ) != pat by {
                assert(rest.subrange(i, i + pat.len()) == s.subrange(
                    i + from.len(),
                    i + from.len() + pat.len(),
                ));
            }
        }
        lemma_replace_leaves_absent(rest, from, to, pat);
        let r = replace_all(rest, from, to);
        assert(out == to + r);
        assert forall|i: int| 0 <= i && i + pat.len() <= out.len() implies #[trigger] out.subrange(
            i,
            i + pat.len(),
        ) != pat by {
            if i < to.len() {
                assert(out.subrange(i, i + pat.len())[0] == to[i]);
            } else {
                let k = i - to.len();
                assert(out.subrange(i, i + pat.len()) =~= r.subrange(k, k + pat.len()));
            }
        }
    } else {
        let tail = s.skip(1);
        if pat != from {
            assert forall|i: int| 0 <= i && i + pat.len() <= tail.len() implies #[trigger] tail.subrange(
                i,
                i + pat.len(),
            ) != pat by {
                assert(tail.subrange(i, i + pat.len()) == s.subrange(i + 1, i + 1 + pat.len()));
            }
        }
        lemma_replace_leaves_absent(tail, from, to, pat);
        let r = replace_all(tail, from, to);
        assert(out == seq![s[0]] + r);
        assert forall|i: int| 0 <= i && i + pat.len() <= out.len() implies #[trigger] out.subrange(
            i,
            i + pat.len(),
        ) != pat by {
            if i == 0 {
                if out.subrange(0, pat.len() as int) == pat {
                    let q = pat.skip(1);
                    assert(r.take(q.len() as int) =~= out.subrange(1, pat.len() as int));
                    assert(out.subrange(1, pat.len() as int) =~= q);
                    lemma_replace_prefix(tail, from, to, q);
                    assert(s.subrange(0, pat.len() as int) =~= seq![s[0]] + tail.take(q.len() as int));
                    assert(s[0] == out[0]);
                    assert(s.subrange(0, pat.len() as int) =~= pat);
                    if pat == from {
                        assert(s.take(from.len() as int) =~= s.subrange(0, pat.len() as int));
                    } else {
                        let z: int = 0;
                        assert(s.subrange(z, z + pat.len()) != pat);
                    }
                }
            } else {
                let k = i - 1;
                assert(out.subrange(i, i + pat.len()) =~= r.subrange(k, k + pat.len()));
            }
        }
    }
}

/// Trimming a character from the end keeps a prefix that does not end in
/// that character.
proof fn lemma_trim_end(s: Seq<char>, c: char)
    ensures
        trim_end_char(s, c).len() <= s.len(),
        trim_end_char(s, c) == s.take(trim_end_char(s, c).len() as int),
        trim_end_char(s, c).len() == 0 || trim_end_char(s, c).last() != c,
    decreases s.len(),
{
    if s.len() > 0 && s.last() == c {
        lemma_trim_end(s.drop_last(), c);
        let t = trim_end_char(s.drop_last(), c);
        assert(s.drop_last().take(t.len() as int) =~= s.take(t.len() as int));
    } else {
        assert(s.take(s.len() as int) =~= s);
    }
}

/// A prefix of a text in which `p` does not occur holds no `p` either.
proof fn lemma_absent_prefix(s: Seq<char>, n: int, p: Seq<char>)
    requires
        0 <= n <= s.len(),
        absent(s, p),
    ensures
        absent(s.take(n), p),
{
    assert forall|i: int| 0 <= i && i + p.len() <= s.take(n).len() implies #[trigger] s.take(n).subrange(
        i,
        i + p.len(),
    ) != p by {
        assert(s.take(n).subrange(i, i + p.len()) =~= s.subrange(i, i + p.len()));
    }
}

/// A normalized URL names no WebSocket scheme and does not end in a slash,
/// so normalizing it again changes nothing.
pub proof fn law_normalized_url(url: Seq<char>)
    ensures
        absent(normalized_url(url), "wss://"@),
        absent(normalized_url(url), "ws://"@),
        normalized_url(url).len() == 0 || normalized_url(url).last() != '/',
        normalized_url(normalized_url(url)) == normalized_url(url),
{
    reveal_strlit("wss://");
    reveal_strlit("ws://");
    reveal_strlit("https://");
    reveal_strlit("http://");
    let wss = "wss://"@;
    let ws = "ws://"@;
    let https = "https://"@;
    let http = "http://"@;
    assert(forall|j: int| 0 <= j < https.len() ==> https[j] != wss[0]);
    assert(forall|j: int| 1 <= j < wss.len() ==> wss[j] != https[0]);
    assert(forall|j: int| 0 <= j < http.len() ==> http[j] != ws[0]);
    assert(forall|j: int| 1 <= j < ws.len() ==> ws[j] != http[0]);
    assert(forall|j: int| 0 <= j < http.len() ==> http[j] != wss[0]);
    assert(forall|j: int| 1 <= j < wss.len() ==> wss[j] != http[0]);
    let s1 = replace_all(url, wss, https);
    lemma_replace_leaves_absent(url, wss, https, wss);
    let s2 = replace_all(s1, ws, http);
    lemma_replace_leaves_absent(s1, ws, http, ws);
    lemma_replace_leaves_absent(s1, ws, http, wss);
    let s3 = trim_end_char(s2, '/');
    lemma_trim_end(s2, '/');
    lemma_absent_prefix(s2, s3.len() as int, wss);
    lemma_absent_prefix(s2, s3.len() as int, ws);
    law_http_url_unchanged(s3);
}

/// The HTTP base URL of a relay given by its WebSocket URL.
pub fn normalize_relay_url(url: &str) -> (r: String)
    ensures
        r@ == normalized_url(url@),
{
    let wss = chars_of("wss://");
    let https = chars_of("https://");
    let ws = chars_of("ws://");
    let http = chars_of("http://");
    proof {
        reveal_strlit("wss://");
        reveal_strlit("ws://");
    }
    let s = chars_of(url);
    let a = replace_chars(s.as_slice(), wss.as_slice(), https.as_slice());
    let b = replace_chars(a.as_slice(), ws.as_slice(), http.as_slice());
    let c = trim_end_chars(b.as_slice(), '/');
    string_of(c.as_slice())
}

/// The full URL of an endpoint.
pub fn endpoint_url(base_url: &str, path: &str) -> (r: String)
    ensures
        r@ == base_url@ + path@,
{
    let mut r = base_url.to_string();
    push_str(&mut r, path);
    r
}

/// The `Authorization` header of a request made with an API token.
pub fn bearer_header(token: &str) -> (r: String)
    ensures
        r@ == "Bearer "@ + token@,
{
    let mut r = "Bearer ".to_string();
    push_str(&mut r, token);
    r
}

/// A 2xx status.
pub open spec fn is_success(status: u16) -> bool {
    200 <= status <= 299
}

/// The message of a failed response: the string under `message` of its JSON
/// body or, when there is no `message` member, under `error`; otherwise the
/// body itself.
pub open spec fn error_message(body: Seq<char>, body_json: Option<JsonValue>) -> Seq<char> {
    match body_json {
        Some(v) => match json_get(v, "message"@) {
            Some(m) => match json_str(m) {
                Some(s) => s,
                None => body,
            },
            None => match json_get(v, "error"@) {
                Some(m) => match json_str(m) {
                    Some(s) => s,
                    None => body,
                },
                None => body,
            },
        },
        None => body,
    }
}

/// The error for a failed response: 401 is an auth failure, 403 a denied
/// permission, 404 a missing entity, and any other status a relay error
/// carrying the status.
pub open spec fn relay_error_is(e: SproutError, status: u16, message: Seq<char>) -> bool {
    if status == 401 {
        e matches SproutError::AuthFailed { message: m } && m@ == message
    } else if status == 403 {
        e matches SproutError::PermissionDenied { message: m } && m@ == message
    } else if status == 404 {
        e matches SproutError::NotFound { entity: m } && m@ == message
    } else {
        e matches SproutError::RelayError { status: s, message: m } && s == status && m@ == message
    }
}

/// The error for a response with a non-2xx `status` and `body`;
/// `body_json` is the body read as JSON, when it is JSON.
pub fn relay_error(status: u16, body: &str, body_json: Option<&JsonValue>) -> (e: SproutError)
    ensures
        relay_error_is(e, status, error_message(body@, crate::json::opt_ref_view(body_json))),
{
    let message = match body_json {
        Some(v) => match v.get("message") {
            Some(m) => match m.as_str() {
                Some(s) => s.to_string(),
                None => body.to_string(),
            },
            None => match v.get("error") {
                Some(m) => match m.as_str() {
                    Some(s) => s.to_string(),
                    None => body.to_string(),
                },
                None => body.to_string(),
            },
        },
        None => body.to_string(),
    };
    if status == 401 {
        SproutError::AuthFailed { message }
    } else if status == 403 {
        SproutError::PermissionDenied { message }
    } else if status == 404 {
        SproutError::NotFound { entity: message }
    } else {
        SproutError::RelayError { status, message }
    }
}

/// What a response reads as: a 2xx response with an empty body is `null`,
/// one with a JSON body is that JSON, and one whose body is not JSON is an
/// internal error naming the parse failure; any other status is the error
/// of [`relay_error_is`].
pub open spec fn response_read(
    status: u16,
    body: Seq<char>,
    body_json: Result<JsonValue, String>,
    r: Result<JsonValue, SproutError>,
) -> bool {
    if is_success(status) {
        if body.len() == 0 {
            r == Ok::<JsonValue, SproutError>(JsonValue::Null)
        } else {
            match body_json {
                Ok(v) => r == Ok::<JsonValue, SproutError>(v),
                Err(e) => r matches Err(SproutError::InternalError { message }) && message@
                    == "invalid JSON response: "@ + e@,
            }
        }
    } else {
        r matches Err(e) && relay_error_is(
            e,
            status,
            error_message(
                body,
                match body_json {
                    Ok(v) => Some(v),
                    Err(_) => None,
                },
            ),
        )
    }
}

/// Reads a response from its `status` and `body`; `body_json` is the body
/// read as JSON, or the reason it is not JSON.
pub fn handle_response(status: u16, body: &str, body_json: Result<JsonValue, String>) -> (r: Result<
    JsonValue,
    SproutError,
>)
    ensures
        response_read(status, body@, body_json, r),
{
    if 200 <= status && status <= 299 {
        if body.unicode_len() == 0 {
            return Ok(JsonValue::Null);
        }
        match body_json {
            Ok(v) => Ok(v),
            Err(e) => {
                let mut message = "invalid JSON response: ".to_string();
                push_str(&mut message, e.as_str());
                Err(SproutError::InternalError { message })
            },
        }
    } else {
        match body_json {
            Ok(v) => Err(relay_error(status, body, Some(&v))),
            Err(_) => Err(relay_error(status, body, None)),
        }
    }
}

/// A response succeeds exactly when its status is 2xx and its body is empty
/// (giving `null`) or JSON (giving that JSON). A failed response is refused
/// by status: 401 as an auth failure, 403 as a denied permission, 404 as a
/// missing entity and any other status as a relay error with that status;
/// the error says the body's `message` string when there is one, else its
/// `error` string when it has no `message` member, else the body itself.
pub proof fn law_response_outcome(status: u16, body: Seq<char>, body_json: Result<JsonValue, String>, r: Result<JsonValue, SproutError>)
    requires
        response_read(status, body, body_json, r),
    ensures
        r is Ok <==> (200 <= status <= 299 && (body.len() == 0 || body_json is Ok)),
        r matches Ok(v) ==> (if body.len() == 0 {
            v == JsonValue::Null
        } else {
            body_json == Ok::<JsonValue, String>(v)
        }),
        status == 401 ==> r matches Err(SproutError::AuthFailed { .. }),
        status == 403 ==> r matches Err(SproutError::PermissionDenied { .. }),
        status == 404 ==> r matches Err(SproutError::NotFound { .. }),
        !(200 <= status <= 299) && status != 401 && status != 403 && status != 404 ==> (r matches Err(
            SproutError::RelayError { status: s, .. },
        ) && s == status),
        !(200 <= status <= 299) ==> (r matches Err(e) && failure_detail(e) == (match body_json {
            Ok(v) => match json_get(v, "message"@) {
                Some(m) => or_body(json_str(m), body),
                None => match json_get(v, "error"@) {
                    Some(m) => or_body(json_str(m), body),
                    None => body,
                },
            },
            Err(_) => body,
        })),
{
}

/// What a refused response's error says (the entity of a missing one).
pub open spec fn failure_detail(e: SproutError) -> Seq<char> {
    match e {
        SproutError::AuthFailed { message } => message@,
        SproutError::PermissionDenied { message } => message@,
        SproutError::NotFound { entity } => entity@,
        SproutError::RelayError { message, .. } => message@,
        _ => Seq::empty(),
    }
}

/// A text, or `body` when there is none.
pub open spec fn or_body(s: Option<Seq<char>>, body: Seq<char>) -> Seq<char> {
    match s {
        Some(t) => t,
        None => body,
    }
}

/// The `x-forwarded-proto` of a request to `url`.
pub open spec fn forwarded_proto_spec(url: Seq<char>) -> Seq<char> {
    if crate::text::has_prefix(url, "https://"@) {
        "https"@
    } else {
        "http"@
    }
}

/// A request goes out as `https` exactly when its URL starts with
/// `https://`, and as `http` otherwise.
pub proof fn law_forwarded_proto(url: Seq<char>)
    ensures
        forwarded_proto_spec(url) == "https"@ <==> has_prefix(url, "https://"@),
        forwarded_proto_spec(url) == "http"@ <==> !has_prefix(url, "https://"@),
{
    reveal_strlit("https");
    reveal_strlit("http");
    assert("https"@ != "http"@) by {
        assert("https"@.len() != "http"@.len());
    }
}

/// The `x-forwarded-proto` header sent with a NIP-98 request to `url`.
pub fn forwarded_proto(url: &str) -> (r: &'static str)
    ensures
        r@ == forwarded_proto_spec(url@),
{
    let s = chars_of(url);
    let p = chars_of("https://");
    if crate::text::chars_start_with(s.as_slice(), p.as_slice()) {
        "https"
    } else {
        "http"
    }
}

} // verus!
