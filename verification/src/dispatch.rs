//! Building one authenticated forwarding attempt and mapping the
//! downstream's status to an outcome class.

use vstd::prelude::*;

use crate::clock;
use crate::signer::Signer;
use crate::signer::signature_hex;

verus! {

/// One authenticated attempt, ready to send: a `POST` whose body is
/// the event text verbatim, carrying the signature and timestamp
/// headers, and the `Authorization` header exactly when an API key is
/// configured.
pub struct SignedRequest {
    /// The `X-Signature-Timestamp` header: RFC 3339 text, as bytes.
    pub timestamp: Vec<u8>,
    /// The `X-Signature-Ed25519` header: lowercase hex.
    pub signature: String,
    /// The event text, byte for byte.
    pub body: Vec<u8>,
    /// The `Authorization` header, when an API key is configured.
    pub api_key: Option<String>,
}

pub open spec fn opt_str_view(o: Option<String>) -> Option<Seq<char>> {
    match o {
        Some(s) => Some(s@),
        None => None,
    }
}

/// Build the attempt for a given timestamp: the signature covers
/// exactly `timestamp ++ body`, and the body is passed through
/// unmodified.
pub fn make_request(
    signer: &Signer,
    timestamp: Vec<u8>,
    body: Vec<u8>,
    api_key: Option<String>,
) -> (r: SignedRequest)
    ensures
        r.timestamp@ == timestamp@,
        r.body@ == body@,
        r.signature@ == signature_hex(signer.key_bytes(), timestamp@, body@),
        r.signature@.len() == 128,
        opt_str_view(r.api_key) == opt_str_view(api_key),
{
    let signature = signer.sign(&timestamp, &body);
    SignedRequest { timestamp, signature, body, api_key }
}

/// Build one attempt at the current instant: a fresh timestamp is
/// read and signed, so no attempt ever reuses an earlier attempt's
/// signature. `None` only where the clock's instant could not be
/// formatted.
pub fn build_attempt(signer: &Signer, body: Vec<u8>, api_key: Option<String>) -> (r: Option<
    SignedRequest,
>)
    ensures
        match r {
            Some(req) => req.body@ == body@ && req.signature@ == signature_hex(
                signer.key_bytes(),
                req.timestamp@,
                body@,
            ) && req.signature@.len() == 128 && opt_str_view(req.api_key) == opt_str_view(
                api_key,
            ),
            None => true,
        },
{
    let now = clock::now_utc();
    match clock::format_rfc3339(now) {
        Some(timestamp) => Some(make_request(signer, timestamp, body, api_key)),
        None => None,
    }
}

/// How the policy treats a response status.
#[derive(Debug, PartialEq, Eq, Structural)]
pub enum StatusClass {
    /// 502 or 503: retried while attempts remain.
    Retryable,
    /// Any other status outside `200..300`: one attempt, no retry.
    NonRetryable,
    /// A status in `200..300`.
    Successful,
}

pub open spec fn status_class(status: u16) -> StatusClass {
    if status == 502 || status == 503 {
        StatusClass::Retryable
    } else if 200 <= status < 300 {
        StatusClass::Successful
    } else {
        StatusClass::NonRetryable
    }
}

/// Map a response status to its outcome class: 502 and 503 are the
/// retryable failures, every other unsuccessful status is terminal.
pub fn classify_status(status: u16) -> (c: StatusClass)
    ensures
        c == status_class(status),
{
    if status == 502 || status == 503 {
        StatusClass::Retryable
    } else if 200 <= status && status < 300 {
        StatusClass::Successful
    } else {
        StatusClass::NonRetryable
    }
}

/// The path appended to the configured base URL: `/discord/event`.
pub open spec fn event_path() -> Seq<u8> {
    seq![47u8, 100u8, 105u8, 115u8, 99u8, 111u8, 114u8, 100u8, 47u8, 101u8, 118u8, 101u8, 110u8, 116u8]
}

/// `s` without its trailing `/` bytes.
pub open spec fn trim_trailing_slashes(s: Seq<u8>) -> Seq<u8>
    decreases s.len(),
{
    if s.len() > 0 && s.last() == 47 {
        trim_trailing_slashes(s.drop_last())
    } else {
        s
    }
}

/// The downstream endpoint for a configured base URL: the base, its
/// trailing slashes trimmed, with `/discord/event` appended.
pub fn endpoint_of(api_url: &Vec<u8>) -> (r: Vec<u8>)
    ensures
        r@ == trim_trailing_slashes(api_url@) + event_path(),
{
    let ghost s = api_url@;
    let mut end: usize = api_url.len();
    proof {
        assert(s.subrange(0, s.len() as int) =~= s);
    }
    while end > 0 && api_url[end - 1] == 47
        invariant
            end <= s.len(),
            s == api_url@,
            trim_trailing_slashes(s) == trim_trailing_slashes(s.subrange(0, end as int)),
        decreases end,
    {
        proof {
            let cur = s.subrange(0, end as int);
            assert(cur.last() == s[end - 1]);
            assert(cur.drop_last() =~= s.subrange(0, end - 1));
        }
        end -= 1;
    }
    proof {
        let cur = s.subrange(0, end as int);
        if end > 0 {
            assert(cur.last() == s[end - 1]);
        }
        assert(trim_trailing_slashes(cur) == cur);
    }
    let mut r: Vec<u8> = Vec::new();
    let mut i: usize = 0;
    while i < end
        invariant
            i <= end <= s.len(),
            s == api_url@,
            r@ == s.subrange(0, i as int),
        decreases end - i,
    {
        r.push(api_url[i]);
        proof {
            assert(r@ =~= s.subrange(0, i + 1));
        }
        i += 1;
    }
    assert(r@ == trim_trailing_slashes(s));
    r.push(47);
    r.push(100);
    r.push(105);
    r.push(115);
    r.push(99);
    r.push(111);
    r.push(114);
    r.push(100);
    r.push(47);
    r.push(101);
    r.push(118);
    r.push(101);
    r.push(110);
    r.push(116);
    proof {
        assert(r@ =~= trim_trailing_slashes(s) + event_path());
    }
    r
}

} // verus!
