//! The compression that pastes are stored under, through the zstd crate.

use vstd::prelude::*;

verus! {

/// The compression level pastes are stored at: ratio over speed, since a
/// paste lives long compared with the time it takes to upload it.
pub const PASTE_LEVEL: i32 = 19;

/// The zstd frame that `zstd::bulk::compress` makes of `data` at `level`.
pub uninterp spec fn zstd_frame(data: Seq<u8>, level: int) -> Seq<u8>;

/// Relies on `zstd::bulk::compress`: it returns one zstd frame holding
/// `data`, which depends on the bytes and the level alone. It compresses
/// into a buffer of `ZSTD_compressBound` bytes, which zstd guarantees is
/// enough, so at a valid level it succeeds.
#[verifier::external_body]
fn zstd_compress(data: &[u8], level: i32) -> (r: Option<Vec<u8>>)
    requires
        1 <= level <= 22,
    ensures
        r is Some,
        r matches Some(frame) ==> frame@ == zstd_frame(data@, level as int),
{
    zstd::bulk::compress(data, level).ok()
}

/// Relies on `zstd::decode_all`: it decodes every valid frame, and zstd is
/// lossless, so a frame that `zstd::bulk::compress` made of some bytes, at
/// any level, decodes to exactly those bytes.
#[verifier::external_body]
pub(crate) fn zstd_decode(frame: &[u8]) -> (r: Option<Vec<u8>>)
    ensures
        (exists|data: Seq<u8>, level: int| frame@ == #[trigger] zstd_frame(data, level)) ==> r is Some,
        r matches Some(out) ==> forall|data: Seq<u8>, level: int|
            frame@ == #[trigger] zstd_frame(data, level) ==> out@ == data,
{
    zstd::decode_all(frame).ok()
}

/// Compresses paste text for storage.
pub fn compress_paste(text: &[u8]) -> (r: Option<Vec<u8>>)
    ensures
        r is Some,
        r matches Some(frame) ==> frame@ == zstd_frame(text@, PASTE_LEVEL as int),
{
    zstd_compress(text, PASTE_LEVEL)
}

} // verus!
