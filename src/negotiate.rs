//! Negotiated decompression: stored pastes are zstd frames, forwarded as
//! they are to clients that accept zstd and decoded for all others.

use vstd::prelude::*;
use crate::codec::{zstd_decode, zstd_frame};
use crate::text::{decimal, decimal_string, spells};

verus! {

/// Whether the encoding's name `zstd` starts at position `i` of `s`.
pub open spec fn zstd_at(s: Seq<char>, i: int) -> bool {
    0 <= i && i + 4 <= s.len() && s.subrange(i, i + 4) == "zstd"@
}

/// Whether `s` holds the encoding's name `zstd` anywhere.
pub open spec fn mentions_zstd(s: Seq<char>) -> bool {
    exists|i: int| #[trigger] zstd_at(s, i)
}

/// Whether a header, absent or present with a value, names zstd.
pub open spec fn header_names_zstd(h: Option<&str>) -> bool {
    match h {
        Some(v) => mentions_zstd(v@),
        None => false,
    }
}

/// Whether the text of a header value names zstd.
pub fn names_zstd(value: &str) -> (r: bool)
    ensures
        r == mentions_zstd(value@),
{
    let n = value.unicode_len();
    if n < 4 {
        return false;
    }
    let mut i: usize = 0;
    while i <= n - 4
        invariant
            n == value@.len(),
            n >= 4,
            0 <= i <= n - 3,
            forall|k: int| 0 <= k < i ==> !#[trigger] zstd_at(value@, k),
        decreases n - i,
    {
        if spells(value, i, i + 4, "zstd") {
            assert(zstd_at(value@, i as int));
            return true;
        }
        i = i + 1;
    }
    assert forall|k: int| !zstd_at(value@, k) by {
        if 0 <= k && k + 4 <= n {
            assert(k < i);
        }
    }
    false
}

fn header_has_zstd(h: Option<&str>) -> (r: bool)
    ensures
        r == header_names_zstd(h),
{
    match h {
        Some(v) => names_zstd(v),
        None => false,
    }
}

/// The decision that one request's reply passes through: whether the
/// client accepts zstd, read once from its `Accept-Encoding` header.
pub struct Decompressor {
    pub client_accepts_zstd: bool,
}

/// A decoded reply body and the `Content-Length` that now describes it.
pub struct Decoded {
    pub body: Vec<u8>,
    pub content_length: String,
}

/// Why a reply could not be delivered.
#[derive(Clone, Copy, Debug, PartialEq, Eq, Structural)]
pub enum ServError {
    /// Nothing is stored under the identifier, or it has expired.
    EmptyQuery,
    /// The stored content could not be read: the metadata lookup or the
    /// file read failed.
    ReadError,
    /// The stored payload is no valid frame.
    Corrupt,
}

impl ServError {
    /// The HTTP status the error is reported with.
    pub fn status(&self) -> (r: u16)
        ensures
            r == (if *self == ServError::EmptyQuery { 404u16 } else { 500u16 }),
    {
        match self {
            ServError::EmptyQuery => 404,
            _ => 500,
        }
    }
}

impl Decompressor {
    /// Reads the request's `Accept-Encoding` value (`None` when absent, or
    /// when it is not visible text): the client accepts zstd when it names it.
    pub fn for_request(accept_encoding: Option<&str>) -> (r: Decompressor)
        ensures
            r.client_accepts_zstd == header_names_zstd(accept_encoding),
    {
        Decompressor { client_accepts_zstd: header_has_zstd(accept_encoding) }
    }

    /// Whether a reply whose `Content-Encoding` is `content_encoding` must
    /// be decoded before it is sent: it is zstd and the client does not
    /// accept zstd. Otherwise the reply is forwarded unchanged.
    pub fn must_decompress(&self, content_encoding: Option<&str>) -> (r: bool)
        ensures
            r == (!self.client_accepts_zstd && header_names_zstd(content_encoding)),
    {
        !self.client_accepts_zstd && header_has_zstd(content_encoding)
    }
}

/// Builds the decoded reply from what the decoder returned (`None` when
/// the body was no valid frame): the bytes, with the exact length of them
/// as `Content-Length`; or `Corrupt`.
pub fn decoded_reply(out: Option<Vec<u8>>) -> (r: Result<Decoded, ServError>)
    ensures
        out is None ==> r == Err::<Decoded, ServError>(ServError::Corrupt),
        out matches Some(b) ==> (r matches Ok(d) && d.body@ == b@ && d.content_length@ == decimal(b@.len())),
{
    match out {
        Some(body) => {
            let content_length = decimal_string(body.len() as u64);
            Ok(Decoded { body, content_length })
        },
        None => Err(ServError::Corrupt),
    }
}

/// Decodes a whole zstd reply body for a client that does not accept zstd,
/// with the exact length of what it decodes to. A body that is no valid
/// frame gives `Corrupt`. A body that is the compressed form of some bytes
/// decodes to exactly those bytes.
pub fn decomp(body: &[u8]) -> (r: Result<Decoded, ServError>)
    ensures
        r matches Ok(d) ==> d.content_length@ == decimal(d.body@.len()),
        forall|data: Seq<u8>, level: int|
            body@ == #[trigger] zstd_frame(data, level) ==> (r matches Ok(d) && d.body@ == data),
        r matches Err(e) ==> e == ServError::Corrupt,
{
    decoded_reply(zstd_decode(body))
}

} // verus!
