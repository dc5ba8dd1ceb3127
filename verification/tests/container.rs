//! End-to-end tests of the container codec: envelope round trips, size-cap
//! and truncation rejection, and archive extraction through real xz and tar
//! streams.

use app_packaging::{WebApp, WebContractError};

/// Builds a finalized (uncompressed) tar archive holding the given entries.
fn make_tar(entries: &[(&str, &[u8])]) -> Vec<u8> {
    let mut builder = tar::Builder::new(Vec::new());
    for (path, data) in entries {
        let mut header = tar::Header::new_gnu();
        header.set_size(data.len() as u64);
        header.set_mode(0o644);
        builder.append_data(&mut header, path, *data).unwrap();
    }
    builder.into_inner().unwrap()
}

/// Builds a flat envelope by hand: big-endian lengths, then the fields.
fn envelope(meta: &[u8], web: &[u8]) -> Vec<u8> {
    let mut out = Vec::new();
    out.extend_from_slice(&(meta.len() as u64).to_be_bytes());
    out.extend_from_slice(meta);
    out.extend_from_slice(&(web.len() as u64).to_be_bytes());
    out.extend_from_slice(web);
    out
}

fn is_unpacking(e: &WebContractError) -> bool {
    matches!(e, WebContractError::UnpackingError(_))
}

#[test]
fn pack_then_parse_round_trip() {
    let meta = b"some metadata".to_vec();
    let web = b"opaque compressed payload".to_vec();
    let app = WebApp::from_compressed(meta.clone(), web.clone()).unwrap();
    let packed = app.pack();
    let back = WebApp::try_from(packed.as_slice()).unwrap();
    assert_eq!(back.metadata, meta);
    assert_eq!(back.web, web);
}

#[test]
fn from_compressed_stores_fields_verbatim() {
    let app = WebApp::from_compressed(b"m".to_vec(), b"w".to_vec()).unwrap();
    assert_eq!(app.metadata, b"m".to_vec());
    assert_eq!(app.web, b"w".to_vec());
}

#[test]
fn metadata_cap_equal_is_accepted() {
    let meta = vec![7u8; 1024];
    let buf = envelope(&meta, b"");
    let app = WebApp::try_from(buf.as_slice()).unwrap();
    assert_eq!(app.metadata, meta);
    assert_eq!(app.web, Vec::<u8>::new());
}

#[test]
fn metadata_cap_exceeded_is_rejected() {
    let meta = vec![7u8; 1025];
    let buf = envelope(&meta, b"");
    let err = WebApp::try_from(buf.as_slice()).unwrap_err();
    assert!(is_unpacking(&err));
}

#[test]
fn web_cap_exceeded_is_rejected() {
    // The declared web length alone is over the cap; the cap is checked
    // before any web bytes are required, so a short buffer suffices.
    let mut buf = Vec::new();
    buf.extend_from_slice(&0u64.to_be_bytes());
    buf.extend_from_slice(&104_857_601u64.to_be_bytes());
    let err = WebApp::try_from(buf.as_slice()).unwrap_err();
    assert!(is_unpacking(&err));
}

#[test]
fn truncated_before_metadata_length_is_rejected() {
    let err = WebApp::try_from(&[0u8, 0, 0][..]).unwrap_err();
    assert!(is_unpacking(&err));
}

#[test]
fn truncated_inside_metadata_is_rejected() {
    let mut buf = Vec::new();
    buf.extend_from_slice(&10u64.to_be_bytes());
    buf.extend_from_slice(b"only4");
    let err = WebApp::try_from(buf.as_slice()).unwrap_err();
    assert!(is_unpacking(&err));
}

#[test]
fn truncated_before_web_length_is_rejected() {
    let mut buf = Vec::new();
    buf.extend_from_slice(&2u64.to_be_bytes());
    buf.extend_from_slice(b"mm");
    buf.extend_from_slice(&[0u8, 0, 0]);
    let err = WebApp::try_from(buf.as_slice()).unwrap_err();
    assert!(is_unpacking(&err));
}

#[test]
fn truncated_inside_web_is_rejected() {
    let mut buf = envelope(b"mm", b"short");
    buf.truncate(buf.len() - 2);
    let err = WebApp::try_from(buf.as_slice()).unwrap_err();
    assert!(is_unpacking(&err));
}

#[test]
fn trailing_bytes_are_ignored() {
    let mut buf = envelope(b"meta", b"web");
    buf.extend_from_slice(b"trailing garbage");
    let app = WebApp::try_from(buf.as_slice()).unwrap();
    assert_eq!(app.metadata, b"meta".to_vec());
    assert_eq!(app.web, b"web".to_vec());
}

#[test]
fn get_file_is_idempotent_and_unpack_still_sees_everything() {
    let tar_bytes = make_tar(&[("a.txt", b"alpha"), ("b.txt", b"beta")]);
    let mut app = WebApp::from_data(Vec::new(), tar_bytes).unwrap();
    let first = app.get_file("a.txt").unwrap();
    let second = app.get_file("a.txt").unwrap();
    assert_eq!(first, second);
    assert_eq!(first, b"alpha".to_vec());
    let entries = app.unpack_entries().unwrap();
    assert_eq!(entries.len(), 2);
    assert_eq!(entries[0].0, "a.txt");
    assert_eq!(entries[0].1, b"alpha".to_vec());
    assert_eq!(entries[1].0, "b.txt");
    assert_eq!(entries[1].1, b"beta".to_vec());
}

#[test]
fn missing_path_in_well_formed_archive_is_not_found() {
    let tar_bytes = make_tar(&[("present.txt", b"here")]);
    let mut app = WebApp::from_data(Vec::new(), tar_bytes).unwrap();
    let err = app.get_file("absent.txt").unwrap_err();
    assert_eq!(err, WebContractError::FileNotFound("absent.txt".to_string()));
}

#[test]
fn invalid_compressed_bytes_are_an_unpacking_error() {
    let mut app = WebApp::from_compressed(Vec::new(), b"not an xz stream".to_vec()).unwrap();
    let err = app.get_file("anything.txt").unwrap_err();
    assert!(is_unpacking(&err));
    let err = app.unpack_entries().unwrap_err();
    assert!(is_unpacking(&err));
}

#[test]
fn first_matching_entry_wins() {
    let tar_bytes = make_tar(&[("dup.txt", b"first"), ("dup.txt", b"second")]);
    let mut app = WebApp::from_data(Vec::new(), tar_bytes).unwrap();
    assert_eq!(app.get_file("dup.txt").unwrap(), b"first".to_vec());
}

#[test]
fn concrete_scenario() {
    let tar_bytes = make_tar(&[("index.html", b"<html></html>")]);
    let app = WebApp::from_data(b"v1".to_vec(), tar_bytes).unwrap();
    let packed = app.pack();

    assert_eq!(&packed[0..8], &[0u8, 0, 0, 0, 0, 0, 0, 2]);
    assert_eq!(&packed[8..10], b"v1");
    let web_len = u64::from_be_bytes(packed[10..18].try_into().unwrap()) as usize;
    assert_eq!(packed.len(), 18 + web_len);

    let mut back = WebApp::try_from(packed.as_slice()).unwrap();
    assert_eq!(back.metadata, b"v1".to_vec());
    assert_eq!(back.get_file("index.html").unwrap(), b"<html></html>".to_vec());
    let err = back.get_file("missing.css").unwrap_err();
    assert_eq!(err, WebContractError::FileNotFound("missing.css".to_string()));
}

#[test]
fn from_data_always_succeeds_with_metadata_verbatim() {
    let app = WebApp::from_data(b"meta".to_vec(), b"any raw bytes at all".to_vec()).unwrap();
    assert_eq!(app.metadata, b"meta".to_vec());
}
