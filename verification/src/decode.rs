//! Turning a raw HTTP response into validated JSON bytes.
//!
//! A response is decoded in order: a 404 status is the distinguished "no
//! data" signal; any other non-200 status classifies as transient or
//! permanent; a 200 body announced as gzip is decompressed in full; a
//! decompressed body over the configured ceiling is rejected outright (the
//! ceiling is an explicit argument, never a hidden limit that would silently
//! truncate); and the resulting bytes must be one well-formed JSON document.
//! A malformed body is permanent — retrying will not fix malformed data.
//! Turning the JSON bytes into typed values stays with the caller.

use vstd::prelude::*;
use vstd::string::StrSliceExecFns;
use std::io::Read;
use crate::error::{FetchError, PermanentCause};
use crate::retry::spec_retryable_status;

verus! {

/// What gzip decompression yields on a byte stream: the decompressed bytes
/// for a valid stream, nothing for an invalid one. A function of the input
/// bytes alone.
pub uninterp spec fn spec_gunzip(b: Seq<u8>) -> Option<Seq<u8>>;

/// True when the bytes form one well-formed JSON document. A function of
/// the bytes alone.
pub uninterp spec fn spec_is_json(b: Seq<u8>) -> bool;

/// Relies on flate2's `GzDecoder` read to the end: decompressing a gzip
/// stream is a function of the stream's bytes alone, and an invalid stream
/// reports an error rather than bytes.
#[verifier::external_body]
fn gunzip(b: &Vec<u8>) -> (r: Option<Vec<u8>>)
    ensures
        r is Some <==> spec_gunzip(b@) is Some,
        r matches Some(v) ==> Some(v@) == spec_gunzip(b@),
{
    let mut decoder = flate2::read::GzDecoder::new(&b[..]);
    let mut out: Vec<u8> = Vec::new();
    match decoder.read_to_end(&mut out) {
        Ok(_) => Some(out),
        Err(_) => None,
    }
}

/// Relies on `serde_json::from_slice` for `serde_json::Value`: whether
/// bytes parse as one JSON document depends on the bytes alone.
#[verifier::external_body]
fn json_valid(b: &Vec<u8>) -> (r: bool)
    ensures
        r == spec_is_json(b@),
{
    serde_json::from_slice::<serde_json::Value>(&b[..]).is_ok()
}

/// True when a content-encoding header announces gzip.
pub open spec fn spec_announces_gzip(h: Option<&str>) -> bool {
    h matches Some(s) && s@ == "gzip"@
}

/// Whether the header value is exactly "gzip".
fn str_is_gzip(h: &str) -> (r: bool)
    ensures
        r == (h@ == "gzip"@),
{
    proof {
        reveal_strlit("gzip");
    }
    let len = h.unicode_len();
    if len != 4 {
        return false;
    }
    let r = h.get_char(0) == 'g' && h.get_char(1) == 'z' && h.get_char(2) == 'i' && h.get_char(3)
        == 'p';
    proof {
        if r {
            assert(h@ =~= "gzip"@);
        }
    }
    r
}

/// What decoding a response yields: the validated JSON bytes of a healthy
/// 200 answer, or the exact classified error.
pub open spec fn spec_decode(
    status: u16,
    gzip: bool,
    body: Seq<u8>,
    max_decoded: Option<usize>,
) -> Result<Seq<u8>, FetchError> {
    if status == 404 {
        Err(FetchError::EmptyResult)
    } else if status != 200 {
        if spec_retryable_status(status) {
            Err(FetchError::Transient(crate::error::TransientCause::Status(status)))
        } else {
            Err(FetchError::Permanent(PermanentCause::Status(status)))
        }
    } else {
        let payload = if gzip {
            spec_gunzip(body)
        } else {
            Some(body)
        };
        match payload {
            None => Err(FetchError::Permanent(PermanentCause::CorruptBody)),
            Some(p) => {
                if max_decoded matches Some(c) && p.len() > c {
                    Err(FetchError::Permanent(PermanentCause::BodyTooLarge))
                } else if spec_is_json(p) {
                    Ok(p)
                } else {
                    Err(FetchError::Permanent(PermanentCause::MalformedJson))
                }
            },
        }
    }
}

/// Decodes one raw HTTP response into validated JSON bytes.
///
/// `max_decoded` is the explicit ceiling on the size of the (decompressed)
/// body; `None` means no ceiling. The caller turns the returned bytes into
/// typed values.
pub fn decode_response(
    status: u16,
    content_encoding: Option<&str>,
    body: Vec<u8>,
    max_decoded: Option<usize>,
) -> (r: Result<Vec<u8>, FetchError>)
    ensures
        r matches Ok(v) ==> spec_decode(
            status,
            spec_announces_gzip(content_encoding),
            body@,
            max_decoded,
        ) == Ok::<Seq<u8>, FetchError>(v@),
        r matches Err(e) ==> spec_decode(
            status,
            spec_announces_gzip(content_encoding),
            body@,
            max_decoded,
        ) == Err::<Seq<u8>, FetchError>(e),
{
    if status == 404 {
        return Err(FetchError::EmptyResult);
    }
    if status != 200 {
        if status == 429 || (500 <= status && status < 600) {
            return Err(FetchError::Transient(crate::error::TransientCause::Status(status)));
        }
        return Err(FetchError::Permanent(PermanentCause::Status(status)));
    }
    let gzip = match content_encoding {
        Some(h) => str_is_gzip(h),
        None => false,
    };
    let payload: Vec<u8> = if gzip {
        match gunzip(&body) {
            None => {
                return Err(FetchError::Permanent(PermanentCause::CorruptBody));
            },
            Some(p) => p,
        }
    } else {
        body
    };
    match max_decoded {
        Some(c) => {
            if payload.len() > c {
                return Err(FetchError::Permanent(PermanentCause::BodyTooLarge));
            }
        },
        None => {},
    }
    if json_valid(&payload) {
        Ok(payload)
    } else {
        Err(FetchError::Permanent(PermanentCause::MalformedJson))
    }
}

/// Guards an endpoint that owes records: an empty page where data was
/// demanded is the distinguished "no data" signal, never a silent empty
/// success; a non-empty page passes through unchanged.
pub fn require_nonempty<T>(page: Vec<T>) -> (r: Result<Vec<T>, FetchError>)
    ensures
        r is Ok <==> page@.len() > 0,
        r matches Ok(v) ==> v == page,
        r is Err ==> r == Err::<Vec<T>, FetchError>(FetchError::EmptyResult),
{
    if page.len() == 0 {
        Err(FetchError::EmptyResult)
    } else {
        Ok(page)
    }
}

/// Gzip is transparent: a 200 response whose gzip body decompresses to some
/// JSON text decodes exactly as the same text sent uncompressed.
pub proof fn lemma_gzip_transparent(gz: Seq<u8>, plain: Seq<u8>, max_decoded: Option<usize>)
    requires
        spec_gunzip(gz) == Some(plain),
    ensures
        spec_decode(200, true, gz, max_decoded) == spec_decode(200, false, plain, max_decoded),
{
}

} // verus!
