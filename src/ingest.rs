//! The ingestion pipeline. The metadata row is committed first, then the
//! bytes are written, and success is reported only after both: a reported
//! upload never names a row whose bytes are not durable.
//!
//! Each upload is a small state machine. Its caller performs each action
//! (insert a row, write a file) and hands the outcome back as the next
//! event; the machine decides what comes next and what the client is told.

use vstd::prelude::*;
use vstd::string::StringSliceAdditionalSpecFns;
use crate::codec::{compress_paste, zstd_frame, PASTE_LEVEL};
use crate::config::{expires_at, expiry_of, Config, Span};
use crate::links::{blob_link, blob_url, data_file, data_file_path, paste_link, paste_url};

verus! {

/// Why an upload failed.
#[derive(Clone, Copy, Debug, PartialEq, Eq, Structural)]
pub enum UploadError {
    /// The clock gave no reading, or the expiry does not fit a timestamp.
    Time,
    /// The blob's bytes could not be written.
    Write,
    /// The metadata row could not be committed.
    Query,
    /// The paste text could not be compressed.
    Compression,
    /// The blob upload carried no bytes.
    EmptyRequest,
    /// The paste text was empty or not text.
    Malformed,
}

impl UploadError {
    /// The HTTP status the error is reported with: 422 for an empty blob,
    /// 400 for an unusable paste, 500 for everything else.
    pub fn status(&self) -> (r: u16)
        ensures
            *self == UploadError::EmptyRequest ==> r == 422,
            *self == UploadError::Malformed ==> r == 400,
            *self != UploadError::EmptyRequest && *self != UploadError::Malformed ==> r == 500,
    {
        match self {
            UploadError::EmptyRequest => 422,
            UploadError::Malformed => 400,
            _ => 500,
        }
    }
}

/// Where a blob upload stands.
#[derive(Clone, Copy, Debug, PartialEq, Eq, Structural)]
pub enum UploadStep {
    /// A row with this expiry is being inserted.
    AwaitRow { expires: i64 },
    /// The bytes of the blob with this identifier are being written.
    AwaitWrite { id: i64 },
    /// The client has its answer.
    Done,
}

/// What the caller of a blob upload does next.
pub enum UploadAction {
    /// Insert an image row with this expiry, and report its identifier.
    InsertRow { expires: i64 },
    /// Write the uploaded bytes to this file, and report whether that worked.
    WriteFile { id: i64, path: String },
    /// Answer the client: the blob's link, or the error.
    Reply(Result<String, UploadError>),
}

/// Starts a blob upload. An empty body is refused before anything is
/// stored; then the clock must give an expiry; then a row is inserted.
pub fn upload(config: &Config, body_empty: bool, now: Option<Span>) -> (r: (UploadStep, UploadAction))
    requires
        config.wf(),
        now matches Some(t) ==> t.wf(),
    ensures
        body_empty ==> r.0 == UploadStep::Done && r.1 == UploadAction::Reply(Err(UploadError::EmptyRequest)),
        !body_empty && expiry_of(now, config.image_ttl) is None ==> r.0 == UploadStep::Done && r.1
            == UploadAction::Reply(Err(UploadError::Time)),
        !body_empty && expiry_of(now, config.image_ttl) is Some ==> r.0 == (UploadStep::AwaitRow {
            expires: expiry_of(now, config.image_ttl)->Some_0 as i64,
        }) && r.1 == (UploadAction::InsertRow { expires: expiry_of(now, config.image_ttl)->Some_0 as i64 }),
{
    if body_empty {
        return (UploadStep::Done, UploadAction::Reply(Err(UploadError::EmptyRequest)));
    }
    match expires_at(now, config.image_ttl) {
        Some(expires) => (UploadStep::AwaitRow { expires }, UploadAction::InsertRow { expires }),
        None => (UploadStep::Done, UploadAction::Reply(Err(UploadError::Time))),
    }
}

impl UploadStep {
    /// Takes the outcome of the row insert: the new identifier, or `None`
    /// when the insert failed. With a row, the bytes are written next, to
    /// the file that belongs to the identifier.
    pub fn on_row(self, config: &Config, row: Option<i64>) -> (r: (UploadStep, UploadAction))
        requires
            self is AwaitRow,
        ensures
            row is None ==> r.0 == UploadStep::Done && r.1 == UploadAction::Reply(Err(UploadError::Query)),
            row matches Some(id) ==> r.0 == (UploadStep::AwaitWrite { id }) && (r.1 matches UploadAction::WriteFile {
                id: fid,
                path,
            } && fid == id && path@ == data_file(config.data_dir@, id as int)),
    {
        match row {
            Some(id) => {
                let path = data_file_path(config.data_dir.as_str(), id);
                (UploadStep::AwaitWrite { id }, UploadAction::WriteFile { id, path })
            },
            None => (UploadStep::Done, UploadAction::Reply(Err(UploadError::Query))),
        }
    }

    /// Takes the outcome of the file write. Only a durable write yields the
    /// link; a failed one leaves the row to expire and reports `Write`.
    pub fn on_write(self, config: &Config, written: bool) -> (r: (UploadStep, UploadAction))
        requires
            self is AwaitWrite,
        ensures
            r.0 == UploadStep::Done,
            !written ==> r.1 == UploadAction::Reply(Err(UploadError::Write)),
            written ==> (r.1 matches UploadAction::Reply(Ok(url)) && url@ == blob_link(
                config.url@,
                self->AwaitWrite_id as int,
            )),
    {
        match self {
            UploadStep::AwaitWrite { id } => {
                if written {
                    (UploadStep::Done, UploadAction::Reply(Ok(blob_url(config.url.as_str(), id))))
                } else {
                    (UploadStep::Done, UploadAction::Reply(Err(UploadError::Write)))
                }
            },
            _ => (UploadStep::Done, UploadAction::Reply(Err(UploadError::Write))),
        }
    }
}

/// What the caller of a paste upload does next.
pub enum PasteAction {
    /// Insert a paste row with this expiry and compressed text, and report
    /// its identifier.
    InsertRow { expires: i64, payload: Vec<u8> },
    /// Answer the client: the paste's link, or the error.
    Reply(Result<String, UploadError>),
}

/// Starts a paste upload. Empty text is refused before anything is
/// stored; the text is compressed, the clock gives the expiry, and the
/// row holding both is inserted in one step.
pub fn upload_paste(config: &Config, text: &str, now: Option<Span>) -> (r: PasteAction)
    requires
        config.wf(),
        now matches Some(t) ==> t.wf(),
    ensures
        text@.len() == 0 ==> r == PasteAction::Reply(Err(UploadError::Malformed)),
        text@.len() > 0 && expiry_of(now, config.paste_ttl) is None ==> r == PasteAction::Reply(
            Err(UploadError::Time),
        ),
        text@.len() > 0 && expiry_of(now, config.paste_ttl) is Some ==> (r matches PasteAction::InsertRow {
            expires,
            payload,
        } && expiry_of(now, config.paste_ttl) == Some(expires as int) && payload@ == zstd_frame(
            text.spec_bytes(),
            PASTE_LEVEL as int,
        )),
{
    if text.is_empty() {
        return PasteAction::Reply(Err(UploadError::Malformed));
    }
    paste_row(compress_paste(text.as_bytes()), now, config.paste_ttl)
}

/// Decides a paste upload from the compressor's result (`None` when it
/// failed): a failure is `Compression`; then the clock must give an
/// expiry; then the row holding the compressed text is inserted.
pub fn paste_row(compressed: Option<Vec<u8>>, now: Option<Span>, ttl: Span) -> (r: PasteAction)
    requires
        ttl.wf(),
        now matches Some(t) ==> t.wf(),
    ensures
        compressed is None ==> r == PasteAction::Reply(Err(UploadError::Compression)),
        compressed is Some && expiry_of(now, ttl) is None ==> r == PasteAction::Reply(Err(UploadError::Time)),
        compressed is Some && expiry_of(now, ttl) is Some ==> (r matches PasteAction::InsertRow {
            expires,
            payload,
        } && expiry_of(now, ttl) == Some(expires as int) && payload@ == compressed->Some_0@),
{
    match compressed {
        None => PasteAction::Reply(Err(UploadError::Compression)),
        Some(payload) => match expires_at(now, ttl) {
            Some(expires) => PasteAction::InsertRow { expires, payload },
            None => PasteAction::Reply(Err(UploadError::Time)),
        },
    }
}

/// Finishes a paste upload with the outcome of the row insert.
pub fn paste_inserted(config: &Config, row: Option<i64>) -> (r: Result<String, UploadError>)
    ensures
        row is None ==> r == Err::<String, UploadError>(UploadError::Query),
        row matches Some(id) ==> (r matches Ok(url) && url@ == paste_link(config.url@, id as int)),
{
    match row {
        Some(id) => Ok(paste_url(config.url.as_str(), id)),
        None => Err(UploadError::Query),
    }
}

} // verus!
