use std::collections::HashMap;

use imgserv::delivery::{blob_file, get_img, get_paste, Stored};
use imgserv::ingest::{upload, upload_paste, PasteAction, UploadAction};
use imgserv::negotiate::decomp;
use imgserv::reaper::{cleanup, TickAction};
use imgserv::store::MetaTable;
use imgserv::{Config, Decompressor, ImageID, ServError, Span};

fn config(image_ttl: u64) -> Config {
    Config {
        url: "http://localhost:8000".to_string(),
        data_dir: "/data".to_string(),
        image_ttl: Span::from_secs(image_ttl),
        paste_ttl: Span::from_secs(14 * 24 * 3600),
        cleanup_interval: Span::from_secs(1),
    }
}

/// Runs a blob upload against an in-memory index and file map.
fn ingest_blob(c: &Config, images: &mut MetaTable, files: &mut HashMap<String, Vec<u8>>, body: &[u8], now: u64) -> String {
    let (step, action) = upload(c, body.is_empty(), Some(Span::from_secs(now)));
    let expires = match action {
        UploadAction::InsertRow { expires } => expires,
        _ => panic!("expected a row insert"),
    };
    let (step, action) = step.on_row(c, images.allocate(expires, Vec::new()));
    match action {
        UploadAction::WriteFile { path, .. } => {
            files.insert(path, body.to_vec());
        }
        _ => panic!("expected a file write"),
    }
    match step.on_write(c, true).1 {
        UploadAction::Reply(Ok(url)) => url,
        _ => panic!("expected the link"),
    }
}

fn stored(found: Option<Vec<u8>>) -> Stored {
    match found {
        Some(bytes) => Stored::Found(bytes),
        None => Stored::Absent,
    }
}

fn read_blob(c: &Config, files: &HashMap<String, Vec<u8>>, id: u64) -> Result<Vec<u8>, ServError> {
    let path = blob_file(c, ImageID(id)).unwrap();
    get_img(c, stored(files.get(&path).cloned())).map(|reply| reply.body)
}

/// Runs one reaper tick against the in-memory index and file map.
fn tick(c: &Config, images: &mut MetaTable, pastes: &mut MetaTable, files: &mut HashMap<String, Vec<u8>>, now: u64) -> usize {
    let (t, action) = cleanup(Span::from_secs(now));
    let cutoff = match action {
        TickAction::DeleteImageRows { cutoff } => cutoff,
        _ => panic!("expected the image rows first"),
    };
    let reaped = images.reap_expired(cutoff);
    let (t, action) = t.on_images_reaped(c, Some(reaped));
    let removed: Vec<bool> = match action {
        TickAction::RemoveFiles { paths } => paths.iter().map(|p| files.remove(p).is_some()).collect(),
        _ => panic!("expected file removals"),
    };
    let (t, action) = t.on_files_removed(&removed);
    match action {
        TickAction::DeletePasteRows { cutoff } => {
            pastes.reap_expired(cutoff);
        }
        _ => panic!("expected the paste rows"),
    }
    t.on_pastes_reaped(true).reaped.len()
}

#[test]
fn blob_expires_after_ttl_and_one_tick() {
    let c = config(2);
    let mut images = MetaTable::new();
    let mut pastes = MetaTable::new();
    let mut files = HashMap::new();
    let url = ingest_blob(&c, &mut images, &mut files, b"hello", 1000);
    assert_eq!(url, "http://localhost:8000/img/1");
    let reply = get_img(&c, stored(files.get("/data/data/1").cloned())).ok().unwrap();
    assert_eq!(reply.body, b"hello".to_vec());
    assert_eq!(reply.content_length, "5");
    assert_eq!(reply.cache_control, "max-age=2");
    assert!(!reply.content_type.is_empty());
    assert_eq!(read_blob(&c, &files, 1), Ok(b"hello".to_vec()));
    assert_eq!(tick(&c, &mut images, &mut pastes, &mut files, 1003), 1);
    assert_eq!(read_blob(&c, &files, 1), Err(ServError::EmptyQuery));
    assert_eq!(ServError::EmptyQuery.status(), 404);
    assert!(!files.contains_key("/data/data/1"));
    assert!(images.find(1).is_none());
}

#[test]
fn blob_survives_tick_before_expiry() {
    let c = config(2);
    let mut images = MetaTable::new();
    let mut pastes = MetaTable::new();
    let mut files = HashMap::new();
    ingest_blob(&c, &mut images, &mut files, b"hello", 1000);
    assert_eq!(tick(&c, &mut images, &mut pastes, &mut files, 1001), 0);
    assert_eq!(read_blob(&c, &files, 1), Ok(b"hello".to_vec()));
}

#[test]
fn missing_file_is_reported_not_fatal() {
    let c = config(2);
    let mut images = MetaTable::new();
    let mut files = HashMap::new();
    ingest_blob(&c, &mut images, &mut files, b"one", 1000);
    ingest_blob(&c, &mut images, &mut files, b"two", 1000);
    files.remove("/data/data/1");
    let (t, _) = cleanup(Span::from_secs(2000));
    let (t, action) = t.on_images_reaped(&c, Some(images.reap_expired(2000)));
    let paths = match action {
        TickAction::RemoveFiles { paths } => paths,
        _ => panic!("expected file removals"),
    };
    assert_eq!(paths, vec!["/data/data/1".to_string(), "/data/data/2".to_string()]);
    let removed: Vec<bool> = paths.iter().map(|p| files.remove(p).is_some()).collect();
    let (t, _) = t.on_files_removed(&removed);
    let report = t.on_pastes_reaped(false);
    assert_eq!(report.reaped, vec![1, 2]);
    assert_eq!(report.missing, vec![1]);
    assert!(report.mismatch());
    assert!(!report.image_query_failed);
    assert!(report.paste_query_failed);
}

#[test]
fn failed_image_delete_goes_on_to_pastes() {
    let c = config(2);
    let (t, _) = cleanup(Span::from_secs(10));
    let (t, action) = t.on_images_reaped(&c, None);
    assert!(matches!(action, TickAction::DeletePasteRows { cutoff: 10 }));
    let report = t.on_pastes_reaped(true);
    assert!(report.image_query_failed);
    assert!(!report.mismatch());
}

#[test]
fn unknown_blob_is_not_found() {
    let c = config(2);
    assert!(matches!(get_img(&c, Stored::Absent), Err(ServError::EmptyQuery)));
    assert!(blob_file(&c, ImageID(u64::MAX)).is_none());
}

#[test]
fn paste_negotiated_per_client() {
    let c = config(2);
    let mut pastes = MetaTable::new();
    let text = "line one\nline two";
    let (expires, payload) = match upload_paste(&c, text, Some(Span::from_secs(1000))) {
        PasteAction::InsertRow { expires, payload } => (expires, payload),
        _ => panic!("expected a row insert"),
    };
    let id = pastes.allocate(expires, payload.clone()).unwrap();
    let row = pastes.find(id).map(|r| r.payload.clone());
    let reply = get_paste(stored(row)).ok().unwrap();
    assert_eq!(reply.content_encoding, "zstd");
    assert_eq!(reply.content_type, "text/plain; charset=utf-8");

    let accepting = Decompressor::for_request(Some("gzip, deflate, zstd"));
    assert!(!accepting.must_decompress(Some(reply.content_encoding)));
    assert_eq!(reply.body, payload);

    let plain = Decompressor::for_request(Some("gzip, deflate"));
    assert!(plain.must_decompress(Some(reply.content_encoding)));
    let decoded = decomp(&reply.body).ok().unwrap();
    assert_eq!(decoded.body, text.as_bytes().to_vec());
    assert_eq!(decoded.content_length, "17");
}

#[test]
fn unknown_paste_is_not_found() {
    assert!(matches!(get_paste(Stored::Absent), Err(ServError::EmptyQuery)));
}

#[test]
fn failed_lookups_are_internal() {
    let c = config(2);
    assert!(matches!(get_img(&c, Stored::Unreadable), Err(ServError::ReadError)));
    assert!(matches!(get_paste(Stored::Unreadable), Err(ServError::ReadError)));
    assert_eq!(ServError::ReadError.status(), 500);
}
