//! An ephemeral content store: binary blobs kept as files, text pastes kept
//! compressed inside their metadata rows, both removed once they expire.
//!
//! The library holds the store's decisions and data: identifier allocation
//! and expiry in the metadata index, the order of the ingestion steps, the
//! reaper's tick, and the negotiation of compressed replies. The program
//! around it performs the database, filesystem and network work that each
//! step asks for, and hands the outcome back.

pub mod assets;
pub mod codec;
pub mod config;
pub mod delivery;
pub mod ingest;
pub mod links;
pub mod negotiate;
pub mod reaper;
pub mod store;
pub mod text;

pub use config::{_default_path, Config, Span, NANOS_PER_SEC};
pub use delivery::{ImageID, Upload, ID};
pub use ingest::UploadError;
pub use negotiate::{Decompressor, ServError};
