use crengine::encoder::{encode_buffer, EncoderConfig, EncoderError};
use crengine::library::{find_book, BookMetadata, LibraryError};
use crengine::sync::{build_sync_plan, SyncError};
use crengine::xtc::{placeholder_encode, XtcError, XtcMetadata};

#[test]
fn encode_buffer_passes_through_content() {
    let config = EncoderConfig::new(50);
    let input = vec![1_u8, 2, 3];
    let output = encode_buffer(&config, &input).expect("expected placeholder success");
    assert_eq!(output, input);
}

#[test]
fn encode_buffer_signals_not_ready_on_empty_input() {
    let config = EncoderConfig::new(0);
    let result = encode_buffer(&config, &[]);
    assert_eq!(result, Err(EncoderError::NotReady));
}

#[test]
fn encoder_config_keeps_dither() {
    assert_eq!(EncoderConfig::new(73).dither_percent, 73);
}

#[test]
fn encode_buffer_copies_single_byte() {
    let config = EncoderConfig::new(100);
    assert_eq!(encode_buffer(&config, &[255]), Ok(vec![255]));
}

#[test]
fn find_book_returns_requested_item() {
    let books = vec![
        BookMetadata::new("id-1", "First"),
        BookMetadata::new("id-2", "Second"),
    ];

    let found = find_book(&books, "id-2").expect("book should be found");
    assert_eq!(found.title, "Second");
}

#[test]
fn find_book_reports_missing_items() {
    let books = vec![BookMetadata::new("id-1", "First")];

    let error = find_book(&books, "unknown").expect_err("book should be missing");
    assert_eq!(error, LibraryError::NotFound("unknown".to_owned()));
}

#[test]
fn find_book_prefers_first_of_equal_identifiers() {
    let books = vec![
        BookMetadata::new("dup", "Earlier"),
        BookMetadata::new("dup", "Later"),
    ];
    let found = find_book(&books, "dup").expect("book should be found");
    assert_eq!(found, BookMetadata::new("dup", "Earlier"));
}

#[test]
fn find_book_in_empty_library() {
    let error = find_book(&[], "id-1").expect_err("nothing to find");
    assert_eq!(error, LibraryError::NotFound("id-1".to_owned()));
}

#[test]
fn build_sync_plan_requires_books() {
    let result = build_sync_plan("/tmp/device", vec![]);
    assert_eq!(result, Err(SyncError::Empty));
}

#[test]
fn build_sync_plan_tracks_targets_and_books() {
    let plan = build_sync_plan("/tmp/device", vec!["book.xtc".to_owned()])
        .expect("plan should be created");
    assert_eq!(plan.target, "/tmp/device");
    assert_eq!(plan.books, vec!["book.xtc".to_owned()]);
}

#[test]
fn build_sync_plan_keeps_book_order() {
    let books = vec!["b.xtc".to_owned(), "a.xtc".to_owned()];
    let plan = build_sync_plan("/mnt/x4", books.clone()).expect("plan should be created");
    assert_eq!(plan.books, books);
}

#[test]
fn placeholder_encode_is_unimplemented() {
    let metadata = XtcMetadata::new("Example");
    let result = placeholder_encode(&metadata);
    assert!(matches!(result, Err(XtcError::NotImplemented)));
}

#[test]
fn xtc_metadata_keeps_title() {
    assert_eq!(XtcMetadata::new("Example").title, "Example");
}
