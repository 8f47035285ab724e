use std::io::Read;

use accelerator::worker::{DownloadRequest, FetchError, TransportFlags, WriteStatus};

fn request(url: &str, path: &str, compressed: bool) -> DownloadRequest {
    let flags = TransportFlags { dispatch_via_http: true, compressed };
    DownloadRequest::from_raw(url, path, flags).unwrap()
}

fn bz2(data: &[u8]) -> Vec<u8> {
    let mut out = Vec::new();
    let mut enc = bzip2::read::BzEncoder::new(data, bzip2::Compression::default());
    enc.read_to_end(&mut out).unwrap();
    out
}

#[test]
fn request_from_raw_strings() {
    let req = request("http://cdn.example/assets/", "models\\foo.mdl", true);
    assert_eq!(req.remote_base_url, "http://cdn.example/assets");
    assert_eq!(req.relative_path, "models/foo.mdl");
    assert!(req.transport_flags.compressed);
    let flags = TransportFlags { dispatch_via_http: true, compressed: false };
    assert!(DownloadRequest::from_raw("http://x", "../x", flags).is_none());
}

#[test]
fn remote_url_carries_suffix_when_compressed() {
    let req = request("http://cdn.example/assets", "models\\foo.mdl", true);
    assert_eq!(req.remote_url(), "http://cdn.example/assets/models/foo.mdl.bz2");
    let plain = request("http://cdn.example/assets", "models\\foo.mdl", false);
    assert_eq!(plain.remote_url(), "http://cdn.example/assets/models/foo.mdl");
}

#[test]
fn local_path_has_no_suffix() {
    let req = request("http://cdn.example/assets", "models\\foo.mdl", true);
    assert_eq!(req.local_path("garrysmod/download"), "garrysmod/download/models/foo.mdl");
    let plain = request("http://cdn.example/assets", "sound/a.wav", false);
    assert_eq!(plain.local_path("root"), "root/sound/a.wav");
}

#[test]
fn non_success_status_is_not_found() {
    let req = request("http://cdn.example/assets", "models\\foo.mdl", true);
    match req.received_content(404, b"missing".to_vec()) {
        Err(FetchError::RemoteFileNotFound { path, base_url }) => {
            assert_eq!(path, "models/foo.mdl");
            assert_eq!(base_url, "http://cdn.example/assets");
        }
        other => panic!("unexpected {:?}", other),
    }
    assert!(matches!(
        req.received_content(199, Vec::new()),
        Err(FetchError::RemoteFileNotFound { .. })
    ));
    assert!(matches!(
        req.received_content(300, Vec::new()),
        Err(FetchError::RemoteFileNotFound { .. })
    ));
}

#[test]
fn plain_body_is_kept_verbatim() {
    let req = request("http://h", "a/b.txt", false);
    assert_eq!(req.received_content(200, b"hello".to_vec()).unwrap(), b"hello".to_vec());
    assert_eq!(req.received_content(299, Vec::new()).unwrap(), Vec::<u8>::new());
}

#[test]
fn compressed_body_is_decoded() {
    let req = request("http://h", "a/b.txt", true);
    let packed = bz2(b"model data");
    assert_ne!(packed, b"model data".to_vec());
    assert_eq!(req.received_content(200, packed).unwrap(), b"model data".to_vec());
}

#[test]
fn broken_compressed_body_fails() {
    let req = request("http://h", "a/b.txt", true);
    match req.received_content(200, b"not bzip2 at all".to_vec()) {
        Err(FetchError::Decompress(p)) => assert_eq!(p, "a/b.txt"),
        other => panic!("unexpected {:?}", other),
    }
}

#[test]
fn decoded_content_passes_result_on() {
    let req = request("http://h", "a/b.txt", true);
    assert_eq!(req.decoded_content(Some(vec![1, 2, 3])).unwrap(), vec![1, 2, 3]);
    assert!(matches!(req.decoded_content(None), Err(FetchError::Decompress(_))));
}

#[test]
fn write_status_becomes_outcome() {
    let req = request("http://h", "maps\\x.bsp", false);
    assert_eq!(req.write_outcome(WriteStatus::Written).unwrap(), "maps/x.bsp");
    match req.write_outcome(WriteStatus::AlreadyExists) {
        Err(FetchError::AlreadyExists(p)) => assert_eq!(p, "maps/x.bsp"),
        other => panic!("unexpected {:?}", other),
    }
    match req.write_outcome(WriteStatus::Failed("disk full".to_string())) {
        Err(FetchError::Io(m)) => assert_eq!(m, "disk full"),
        other => panic!("unexpected {:?}", other),
    }
}

#[test]
fn same_path_twice_fails_the_second_time() {
    let first = request("http://h", "maps/x.bsp", false);
    let second = request("http://h", "maps/x.bsp", false);
    assert!(first.write_outcome(WriteStatus::Written).is_ok());
    let outcome = second.write_outcome(WriteStatus::AlreadyExists);
    assert_eq!(outcome.unwrap_err().message(), "file `maps/x.bsp` exists already");
}

#[test]
fn fetch_error_messages() {
    let nf = FetchError::RemoteFileNotFound {
        path: "models/foo.mdl".to_string(),
        base_url: "http://cdn.example/assets".to_string(),
    };
    assert_eq!(nf.message(), "remote file `models/foo.mdl` not found at http://cdn.example/assets");
    assert_eq!(FetchError::Transport("timed out".to_string()).message(), "request failed: timed out");
    assert_eq!(FetchError::Decompress("a".to_string()).message(), "could not decompress `a`");
    assert_eq!(FetchError::Io("denied".to_string()).message(), "write failed: denied");
}

#[test]
fn compressed_asset_scenario() {
    let req = request("http://cdn.example/assets", "models\\foo.mdl", true);
    assert_eq!(req.remote_url(), "http://cdn.example/assets/models/foo.mdl.bz2");
    assert_eq!(req.local_path("sandbox"), "sandbox/models/foo.mdl");
    let body = req.received_content(200, bz2(b"MDL")).unwrap();
    assert_eq!(body, b"MDL".to_vec());
    assert_eq!(req.write_outcome(WriteStatus::Written).unwrap(), "models/foo.mdl");
    let failed = req.received_content(404, Vec::new()).unwrap_err();
    assert!(failed.message().contains("models/foo.mdl"));
}

#[test]
fn independent_fetches_in_one_batch() {
    let missing = request("http://h", "a/missing.mdl", false);
    let present = request("http://h", "a/present.mdl", false);
    let first = missing.received_content(404, Vec::new());
    let second = present.received_content(200, b"ok".to_vec());
    assert!(matches!(first, Err(FetchError::RemoteFileNotFound { .. })));
    assert_eq!(second.unwrap(), b"ok".to_vec());
    assert_eq!(present.write_outcome(WriteStatus::Written).unwrap(), "a/present.mdl");
}
