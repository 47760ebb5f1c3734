//! Delivery: a blob is served from its file with a sniffed content type;
//! a paste is served as its stored zstd frame, marked as zstd-encoded.

use vstd::prelude::*;
use crate::config::{Config, Span};
use crate::links::{cache_control, data_file, data_file_path, max_age};
use crate::negotiate::ServError;
use crate::text::{decimal, decimal_string};

verus! {

/// How many leading bytes of a blob its content type is sniffed from.
pub const SNIFF_WINDOW: usize = 2048;

/// The identifier in a blob's link.
#[derive(Clone, Copy, Debug, PartialEq, Eq, Structural)]
pub struct ImageID(pub u64);

/// The identifier in a paste's link.
#[derive(Clone, Copy, Debug, PartialEq, Eq, Structural)]
pub struct ID(pub i64);

/// The text field of the paste form.
pub struct Upload {
    pub text: String,
}

/// The outcome of looking stored content up: its bytes, no such content,
/// or a lookup that itself failed (a database or disk error).
pub enum Stored {
    Found(Vec<u8>),
    Absent,
    Unreadable,
}

/// What a blob is served with: its bytes and the header values that
/// describe them.
pub struct BlobReply {
    pub content_type: String,
    pub content_length: String,
    pub cache_control: String,
    pub body: Vec<u8>,
}

/// What a paste is served with: its stored frame, as plain text encoded
/// with zstd.
pub struct PasteReply {
    pub content_type: &'static str,
    pub content_encoding: &'static str,
    pub body: Vec<u8>,
}

/// Relies on `tree_magic_mini::from_u8`: it names the MIME type of the
/// given bytes. It reads the type database installed on the machine, so
/// nothing is stated of the name it gives.
#[verifier::external_body]
fn sniff(head: &[u8]) -> (r: String) {
    tree_magic_mini::from_u8(head).to_string()
}

/// The file that holds the bytes of blob `id`. `None` for an identifier
/// beyond the signed range, which the store never hands out.
pub fn blob_file(config: &Config, id: ImageID) -> (r: Option<String>)
    ensures
        id.0 <= i64::MAX ==> (r matches Some(p) && p@ == data_file(config.data_dir@, id.0 as int)),
        id.0 > i64::MAX ==> r is None,
{
    if id.0 > i64::MAX as u64 {
        None
    } else {
        Some(data_file_path(config.data_dir.as_str(), id.0 as i64))
    }
}

/// Builds the reply for blob bytes of the given content type: the bytes
/// unchanged, their exact length, and a cache lifetime of the blob TTL.
pub fn blob_reply(body: Vec<u8>, content_type: String, ttl: Span) -> (r: BlobReply)
    ensures
        r.body@ == body@,
        r.content_type@ == content_type@,
        r.content_length@ == decimal(body@.len()),
        r.cache_control@ == max_age(ttl.secs as nat),
{
    let content_length = decimal_string(body.len() as u64);
    BlobReply { content_type, content_length, cache_control: cache_control(ttl.secs), body }
}

/// Serves a blob from the outcome of reading its file: a missing file is
/// `EmptyQuery`, a failed read is `ReadError`; otherwise the bytes are
/// served unchanged, typed by sniffing their first `SNIFF_WINDOW` bytes.
pub fn get_img(config: &Config, stored: Stored) -> (r: Result<BlobReply, ServError>)
    ensures
        stored is Absent ==> r == Err::<BlobReply, ServError>(ServError::EmptyQuery),
        stored is Unreadable ==> r == Err::<BlobReply, ServError>(ServError::ReadError),
        stored matches Stored::Found(b) ==> (r matches Ok(reply) && reply.body@ == b@ && reply.content_length@
            == decimal(b@.len()) && reply.cache_control@ == max_age(config.image_ttl.secs as nat)),
{
    match stored {
        Stored::Absent => Err(ServError::EmptyQuery),
        Stored::Unreadable => Err(ServError::ReadError),
        Stored::Found(body) => {
            let n = if body.len() < SNIFF_WINDOW {
                body.len()
            } else {
                SNIFF_WINDOW
            };
            let content_type = sniff(vstd::slice::slice_subrange(body.as_slice(), 0, n));
            Ok(blob_reply(body, content_type, config.image_ttl))
        },
    }
}

/// Serves a paste from the outcome of looking its row up: no row is
/// `EmptyQuery`, a failed lookup is `ReadError`; otherwise the stored frame
/// is served unchanged, marked as zstd-encoded plain text.
pub fn get_paste(stored: Stored) -> (r: Result<PasteReply, ServError>)
    ensures
        stored is Absent ==> r == Err::<PasteReply, ServError>(ServError::EmptyQuery),
        stored is Unreadable ==> r == Err::<PasteReply, ServError>(ServError::ReadError),
        stored matches Stored::Found(p) ==> (r matches Ok(reply) && reply.body@ == p@ && reply.content_encoding@
            == "zstd"@ && reply.content_type@ == "text/plain; charset=utf-8"@),
{
    match stored {
        Stored::Absent => Err(ServError::EmptyQuery),
        Stored::Unreadable => Err(ServError::ReadError),
        Stored::Found(body) => Ok(
            PasteReply { content_type: "text/plain; charset=utf-8", content_encoding: "zstd", body },
        ),
    }
}

/// A blob is read back from where it was written: for every identifier
/// the store hands out, the link's `ImageID` is in range, and the file a
/// read opens for it is the file the upload wrote.
pub proof fn lemma_read_back(dir: Seq<char>, id: i64)
    requires
        id >= 1,
    ensures
        (id as u64) <= i64::MAX,
        data_file(dir, (id as u64) as int) == data_file(dir, id as int),
{
}

} // verus!
