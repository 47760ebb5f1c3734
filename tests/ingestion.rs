use imgserv::codec::compress_paste;
use imgserv::ingest::{paste_inserted, paste_row, upload, upload_paste, PasteAction, UploadAction, UploadStep};
use imgserv::negotiate::decomp;
use imgserv::{Config, Span, UploadError};

fn config() -> Config {
    Config {
        url: "https://img.example.org".to_string(),
        data_dir: "/var/lib/imgserv".to_string(),
        image_ttl: Span::from_secs(2),
        paste_ttl: Span::from_secs(60),
        cleanup_interval: Span::from_secs(1),
    }
}

#[test]
fn empty_blob_is_refused_before_any_row() {
    let (step, action) = upload(&config(), true, Some(Span::from_secs(100)));
    assert_eq!(step, UploadStep::Done);
    assert!(matches!(action, UploadAction::Reply(Err(UploadError::EmptyRequest))));
    assert_eq!(UploadError::EmptyRequest.status(), 422);
}

#[test]
fn blob_without_clock_is_internal() {
    let (step, action) = upload(&config(), false, None);
    assert_eq!(step, UploadStep::Done);
    assert!(matches!(action, UploadAction::Reply(Err(UploadError::Time))));
    assert_eq!(UploadError::Time.status(), 500);
}

#[test]
fn blob_row_then_file_then_link() {
    let c = config();
    let (step, action) = upload(&c, false, Some(Span::new(100, 5)));
    assert_eq!(step, UploadStep::AwaitRow { expires: 102 });
    assert!(matches!(action, UploadAction::InsertRow { expires: 102 }));
    let (step, action) = step.on_row(&c, Some(9));
    assert_eq!(step, UploadStep::AwaitWrite { id: 9 });
    match action {
        UploadAction::WriteFile { id, path } => {
            assert_eq!(id, 9);
            assert_eq!(path, "/var/lib/imgserv/data/9");
        }
        _ => panic!("expected a file write"),
    }
    let (step, action) = step.on_write(&c, true);
    assert_eq!(step, UploadStep::Done);
    match action {
        UploadAction::Reply(Ok(url)) => assert_eq!(url, "https://img.example.org/img/9"),
        _ => panic!("expected the link"),
    }
}

#[test]
fn blob_row_failure_is_query_error() {
    let c = config();
    let (step, _) = upload(&c, false, Some(Span::from_secs(100)));
    let (step, action) = step.on_row(&c, None);
    assert_eq!(step, UploadStep::Done);
    assert!(matches!(action, UploadAction::Reply(Err(UploadError::Query))));
}

#[test]
fn blob_write_failure_is_write_error() {
    let c = config();
    let (step, _) = upload(&c, false, Some(Span::from_secs(100)));
    let (step, _) = step.on_row(&c, Some(1));
    let (step, action) = step.on_write(&c, false);
    assert_eq!(step, UploadStep::Done);
    assert!(matches!(action, UploadAction::Reply(Err(UploadError::Write))));
}

#[test]
fn empty_paste_is_refused() {
    let action = upload_paste(&config(), "", Some(Span::from_secs(100)));
    assert!(matches!(action, PasteAction::Reply(Err(UploadError::Malformed))));
    assert_eq!(UploadError::Malformed.status(), 400);
}

#[test]
fn paste_without_clock_is_internal() {
    let action = upload_paste(&config(), "some text", None);
    assert!(matches!(action, PasteAction::Reply(Err(UploadError::Time))));
}

#[test]
fn paste_row_holds_compressed_text() {
    let text = "line one\nline two";
    match upload_paste(&config(), text, Some(Span::from_secs(1000))) {
        PasteAction::InsertRow { expires, payload } => {
            assert_eq!(expires, 1060);
            assert_eq!(payload, compress_paste(text.as_bytes()).unwrap());
            assert_eq!(decomp(&payload).ok().unwrap().body, text.as_bytes().to_vec());
        }
        _ => panic!("expected a row insert"),
    }
}

#[test]
fn paste_link_after_insert() {
    let c = config();
    assert_eq!(paste_inserted(&c, Some(4)), Ok("https://img.example.org/paste/4".to_string()));
    assert_eq!(paste_inserted(&c, None), Err(UploadError::Query));
    assert_eq!(UploadError::Compression.status(), 500);
    assert_eq!(UploadError::Write.status(), 500);
    assert_eq!(UploadError::Query.status(), 500);
}

#[test]
fn paste_row_from_compressor_result() {
    let ttl = Span::from_secs(60);
    assert!(matches!(
        paste_row(None, Some(Span::from_secs(1)), ttl),
        PasteAction::Reply(Err(UploadError::Compression))
    ));
    assert!(matches!(paste_row(Some(vec![1]), None, ttl), PasteAction::Reply(Err(UploadError::Time))));
    match paste_row(Some(vec![1, 2]), Some(Span::from_secs(1)), ttl) {
        PasteAction::InsertRow { expires, payload } => {
            assert_eq!(expires, 61);
            assert_eq!(payload, vec![1, 2]);
        }
        _ => panic!("expected a row insert"),
    }
}
