use file_util::compression::{compress_opt, decompress_opt, Compression, CompressionError};
use file_util::fs::{FileAccessor, FileUtilFsError};
use file_util::gcs::{find_object, list_objects, FileUtilGcsError, GcsFile};
use file_util::mime::MimeType;
use file_util::retry::{ErrorClass, RetryAction, RetryExecutor, RetryPolicy};
use file_util::web::{read_step, url_exists_from_status, WebReadStep};
use file_util::{decode_text, resolve, route, FileUtilError, Operation, ResourceAddress};
use url::Url;

fn parse(s: &str) -> Result<GcsFile, FileUtilGcsError> {
    GcsFile::new(s.to_string())
}

#[test]
fn parse_gcs_file() {
    let url = Url::parse("gs://zdb_test/zdb").unwrap();
    let result = GcsFile::new_with_url(url.as_str());

    assert!(result.is_ok());
    let result = result.unwrap();

    assert_eq!(
        result,
        GcsFile {
            bucket: "zdb_test".to_string(),
            name: "zdb".to_string(),
            is_prefix: false,
        }
    );
}

#[test]
fn render_gives_back_the_identifier() {
    for s in [
        "gs://bucket/name",
        "gs://bucket/name/",
        "gs://bucket/a/b/c.gz",
        "gs://bucket/dir/sub/",
        "gs://bucket",
        "gs://bucket/",
        "gs://b/x//",
        "gs://b/with space%2f",
    ] {
        let parsed = parse(s).unwrap();
        assert_eq!(parsed.to_string(), s);
    }
}

#[test]
fn bare_bucket_is_the_bucket_root() {
    let f = parse("gs://bucket").unwrap();
    assert_eq!(f.bucket, "bucket");
    assert_eq!(f.name, "");
    assert!(!f.is_prefix);
    assert!(matches!(route("gs://bucket", Operation::Read), Err(FileUtilError::InvalidAddress(_))));
    assert!(matches!(route("gs://bucket", Operation::Exists), Err(FileUtilError::InvalidAddress(_))));
    assert!(matches!(route("gs://bucket", Operation::List), Ok(ResourceAddress::ObjectLocation(_))));
}

#[test]
fn malformed_identifiers_fail() {
    for s in ["gs://bucket//", "gs:///name", "gs://"] {
        assert!(matches!(parse(s), Err(FileUtilGcsError::InvalidGcsUrl(_))), "{}", s);
        assert!(matches!(resolve(s), Err(FileUtilError::InvalidAddress(_))), "{}", s);
    }
    assert!(matches!(parse("http://bucket/name"), Err(FileUtilGcsError::GcsInvalidBucketPathError(_))));
    assert!(matches!(parse("GS://bucket/name"), Err(FileUtilGcsError::GcsInvalidBucketPathError(_))));
}

#[test]
fn trailing_separator_only_marks_a_prefix() {
    let exact = parse("gs://b/n").unwrap();
    let prefix = parse("gs://b/n/").unwrap();
    assert_eq!(exact.bucket, "b");
    assert_eq!(prefix.bucket, "b");
    assert_eq!(exact.name, "n");
    assert_eq!(prefix.name, "n");
    assert!(!exact.is_prefix);
    assert!(prefix.is_prefix);
    assert_eq!(prefix.list_prefix(), "n/");
    assert_eq!(exact.list_prefix(), "n");
}

#[test]
fn gzip_round_trip() {
    let c = Compression::Gzip;
    for x in [vec![], b"hello".to_vec(), vec![0u8; 1000], (0..=255u8).collect::<Vec<u8>>()] {
        let y = c.compress(&x).unwrap();
        assert_eq!(compress_opt(&x, Some(c)).unwrap(), y);
        assert_eq!(&y[0..2], &[0x1f, 0x8b]);
        assert_eq!(c.decompress(&y).unwrap(), x);
    }
}

#[test]
fn gzip_rejects_malformed_input() {
    assert!(matches!(Compression::Gzip.decompress(b"not gzip"), Err(CompressionError::IOError(_))));
    assert!(matches!(Compression::Gzip.decompress(b""), Err(CompressionError::IOError(_))));
    assert!(matches!(Compression::Gzip.decompress(&[0x1f, 0x8b, 8]), Err(CompressionError::IOError(_))));
}

#[test]
fn decompress_opt_on_absent_or_uncompressed() {
    assert!(decompress_opt(None, Some(Compression::Gzip)).unwrap().is_none());
    assert_eq!(decompress_opt(Some(b"x".to_vec()), None).unwrap(), Some(b"x".to_vec()));
    let z = compress_opt(b"abc", Some(Compression::Gzip)).unwrap();
    assert_ne!(z, b"abc".to_vec());
    assert_eq!(decompress_opt(Some(z), Some(Compression::Gzip)).unwrap(), Some(b"abc".to_vec()));
    assert_eq!(compress_opt(b"abc", None).unwrap(), b"abc".to_vec());
}

#[test]
fn compression_from_extension() {
    assert_eq!(Compression::from_extention("data/file.gz"), Some(Compression::Gzip));
    assert_eq!(Compression::from_extention("file.gzip"), Some(Compression::Gzip));
    assert_eq!(Compression::from_extention("dir/file.gz/"), Some(Compression::Gzip));
    assert_eq!(Compression::from_extention("file.tar.gz"), Some(Compression::Gzip));
    assert_eq!(Compression::from_extention(".gz"), None);
    assert_eq!(Compression::from_extention("dir/.gz"), None);
    assert_eq!(Compression::from_extention("file.txt"), None);
    assert_eq!(Compression::from_extention("filegz"), None);
    assert_eq!(Compression::from_extention(""), None);
    assert_eq!(Compression::from_extention("a.gz/."), Some(Compression::Gzip));
    assert_eq!(Compression::from_extention("a.gz/./"), Some(Compression::Gzip));
    assert_eq!(Compression::from_extention("dir/a.gzip//./."), Some(Compression::Gzip));
    assert_eq!(Compression::from_extention("a.gz/.."), None);
    assert_eq!(Compression::from_extention("."), None);
}

fn policy(max_retries: Option<u64>) -> RetryPolicy {
    RetryPolicy {
        initial_interval_ms: 100,
        multiplier_percent: 200,
        max_interval_ms: 1000,
        max_elapsed_ms: 60000,
        max_retries,
    }
}

/// Runs an operation that fails with `fails` in turn and then succeeds; gives the
/// number of invocations and the index of the invocation whose error was returned.
fn run(p: RetryPolicy, fails: &[ErrorClass]) -> (usize, Option<usize>, Vec<u64>) {
    let mut ex = RetryExecutor::new(Some(p));
    let mut invocations = 0;
    let mut waits = Vec::new();
    loop {
        let i = invocations;
        invocations += 1;
        if i >= fails.len() {
            return (invocations, None, waits);
        }
        match ex.on_failure(fails[i], 0) {
            RetryAction::GiveUp => return (invocations, Some(i), waits),
            RetryAction::RetryAfter(ms) => waits.push(ms),
        }
    }
}

#[test]
fn transient_failures_then_success() {
    let fails = [ErrorClass::Transient; 3];
    let (n, err, waits) = run(policy(Some(3)), &fails);
    assert_eq!(n, 4);
    assert_eq!(err, None);
    assert_eq!(waits, vec![100, 200, 400]);
    let (n, err, _) = run(policy(None), &fails);
    assert_eq!((n, err), (4, None));
    let (n, err, _) = run(policy(Some(2)), &fails);
    assert_eq!((n, err), (3, Some(2)));
}

#[test]
fn permanent_failure_is_not_retried() {
    let (n, err, waits) = run(policy(Some(5)), &[ErrorClass::Permanent, ErrorClass::Transient]);
    assert_eq!((n, err), (1, Some(0)));
    assert!(waits.is_empty());
}

#[test]
fn elapsed_time_ends_retries() {
    let mut ex = RetryExecutor::new(Some(policy(None)));
    assert_eq!(ex.on_failure(ErrorClass::Transient, 59999), RetryAction::RetryAfter(100));
    assert_eq!(ex.on_failure(ErrorClass::Transient, 60000), RetryAction::GiveUp);
}

#[test]
fn backoff_intervals_grow_and_cap() {
    let p = policy(None);
    let got: Vec<u64> = (0..6).map(|a| p.backoff_interval(a)).collect();
    assert_eq!(got, vec![100, 200, 400, 800, 1000, 1000]);
    let d = RetryPolicy::default_policy();
    assert_eq!(d.backoff_interval(0), 500);
    assert_eq!(d.backoff_interval(1), 750);
    assert_eq!(d.backoff_interval(2), 1125);
    let ex = RetryExecutor::new(None);
    assert_eq!(ex.policy, d);
}

fn page(names: &[&str]) -> Vec<String> {
    names.iter().map(|s| s.to_string()).collect()
}

#[test]
fn listing_aggregates_pages_in_order() {
    let pages = vec![Ok(page(&["d/a", "d/b"])), Ok(page(&["d/c", "d/sub/"]))];
    let got = list_objects("bkt", pages).ok().unwrap();
    assert_eq!(got, vec!["gs://bkt/d/a", "gs://bkt/d/b", "gs://bkt/d/c", "gs://bkt/d/sub/"]);
    assert!(parse(&got[3]).unwrap().is_prefix);
}

#[test]
fn listing_fails_whole_on_a_failed_page() {
    let pages = vec![
        Ok(page(&["a"])),
        Err(FileUtilGcsError::StorageAccessError("page 2".to_string(), Some(503))),
        Err(FileUtilGcsError::StorageAccessError("page 3".to_string(), None)),
        Ok(page(&["c"])),
    ];
    match list_objects("bkt", pages) {
        Err(FileUtilGcsError::StorageAccessError(m, status)) => {
            assert_eq!(m, "page 2");
            assert_eq!(status, Some(503));
        }
        other => panic!("unexpected {:?}", other),
    }
}

#[test]
fn find_object_matches_exact_names() {
    let pages = vec![page(&["data/file", "data/file.gz"]), page(&["data/other"])];
    assert!(find_object("data/file.gz", &pages).ok().unwrap());
    assert!(find_object("data/other", &pages).ok().unwrap());
    assert!(!find_object("data/fil", &pages).ok().unwrap());
    assert!(matches!(find_object("data/", &pages), Err(FileUtilGcsError::GcsInvalidBucketPathError(_))));
}

#[test]
fn prefix_addresses_refuse_exact_object_operations() {
    for op in [Operation::Exists, Operation::Read, Operation::Delete, Operation::Write] {
        assert!(matches!(route("gs://b/dir/", op), Err(FileUtilError::InvalidAddress(_))));
    }
    assert!(matches!(route("gs://b/dir/", Operation::List), Ok(ResourceAddress::ObjectLocation(_))));
}

#[test]
fn dispatch_order_and_unsupported_operations() {
    assert!(matches!(resolve("https://example.com/a.gz"), Ok(ResourceAddress::WebLocation(_))));
    assert!(matches!(resolve("http://example.com"), Ok(ResourceAddress::WebLocation(_))));
    assert!(matches!(resolve("/tmp/file.txt"), Ok(ResourceAddress::LocalPath(_))));
    assert!(matches!(resolve("ftp://host/file"), Ok(ResourceAddress::LocalPath(_))));
    assert!(matches!(resolve(""), Err(FileUtilError::InvalidAddress(_))));
    assert!(matches!(route("https://example.com/x", Operation::List), Err(FileUtilError::UnsupportedOperation(_))));
    assert!(matches!(route("https://example.com/x", Operation::Write), Err(FileUtilError::UnsupportedOperation(_))));
    assert!(matches!(route("https://example.com/x", Operation::Read), Ok(ResourceAddress::WebLocation(_))));
    assert!(matches!(route("/tmp/x", Operation::Delete), Err(FileUtilError::UnsupportedOperation(_))));
    assert!(matches!(route("/tmp/x", Operation::List), Ok(ResourceAddress::LocalPath(_))));
    let accessor = FileAccessor::new("/tmp/x".to_string()).ok().unwrap();
    assert!(matches!(accessor.delete(), Err(FileUtilFsError::UnsupportedOperation(_))));
}

#[test]
fn write_read_exists_delete_end_to_end() {
    let id = "gs://mybucket/data/file.gz";
    let mut store: Vec<(String, Vec<u8>)> = Vec::new();
    let object = |op| match route(id, op) {
        Ok(ResourceAddress::ObjectLocation(f)) => f,
        _ => panic!("not an object"),
    };
    let f = object(Operation::Write);
    let body = compress_opt(b"hello", Some(Compression::Gzip)).unwrap();
    store.push((f.name.clone(), body));
    let listing = |store: &Vec<(String, Vec<u8>)>| vec![store.iter().map(|(n, _)| n.clone()).collect::<Vec<_>>()];
    let f = object(Operation::Read);
    let present = find_object(&f.name, &listing(&store)).ok().unwrap();
    assert!(present);
    let stored = store.iter().find(|(n, _)| *n == f.name).map(|(_, b)| b.clone());
    let read = decompress_opt(stored, Some(Compression::Gzip)).unwrap();
    assert_eq!(read, Some(b"hello".to_vec()));
    let f = object(Operation::Exists);
    assert!(find_object(&f.name, &listing(&store)).ok().unwrap());
    let f = object(Operation::Delete);
    store.retain(|(n, _)| *n != f.name);
    assert!(!find_object(&f.name, &listing(&store)).ok().unwrap());
}

#[test]
fn web_status_decisions() {
    assert_eq!(url_exists_from_status(200), Ok(true));
    assert_eq!(url_exists_from_status(204), Ok(true));
    assert_eq!(url_exists_from_status(404), Ok(false));
    assert_eq!(url_exists_from_status(503), Err(ErrorClass::Transient));
    assert_eq!(url_exists_from_status(408), Err(ErrorClass::Transient));
    assert_eq!(url_exists_from_status(403), Err(ErrorClass::Permanent));
    assert_eq!(url_exists_from_status(301), Err(ErrorClass::Permanent));
    assert_eq!(read_step(200), WebReadStep::Body);
    assert_eq!(read_step(404), WebReadStep::NotFound);
    assert_eq!(read_step(503), WebReadStep::Fail(ErrorClass::Transient));
    assert_eq!(read_step(408), WebReadStep::Fail(ErrorClass::Transient));
    assert_eq!(read_step(403), WebReadStep::Fail(ErrorClass::Permanent));
}

#[test]
fn text_decoding() {
    assert_eq!(decode_text(None).ok().unwrap(), None);
    assert_eq!(decode_text(Some("héllo".as_bytes().to_vec())).ok().unwrap(), Some("héllo".to_string()));
    assert!(matches!(decode_text(Some(vec![0xff, 0xfe])), Err(FileUtilError::DecodeError(_))));
}

#[test]
fn error_classes_and_mime_text() {
    assert_eq!(FileUtilGcsError::StorageAccessError("x".to_string(), None).classify(), ErrorClass::Transient);
    assert_eq!(FileUtilGcsError::StorageAccessError("x".to_string(), Some(500)).classify(), ErrorClass::Transient);
    assert_eq!(FileUtilGcsError::StorageAccessError("x".to_string(), Some(403)).classify(), ErrorClass::Permanent);
    assert_eq!(FileUtilGcsError::StorageAccessError("x".to_string(), Some(400)).classify(), ErrorClass::Permanent);
    assert_eq!(file_util::retry::classify_status(502), ErrorClass::Transient);
    assert_eq!(file_util::retry::classify_status(404), ErrorClass::Permanent);
    assert_eq!(FileUtilGcsError::InvalidGcsUrl("x".to_string()).classify(), ErrorClass::Permanent);
    assert_eq!(MimeType::OctetStream.as_str(), "application/octet-stream");
    assert_eq!(MimeType::TextPlain.as_str(), "text/plain");
    assert_eq!(MimeType::ApplicationJson.as_str(), "application/json");
}

#[test]
fn bucket_lookup() {
    let names = page(&["alpha", "beta"]);
    assert!(file_util::gcs::find_bucket(&names, "beta"));
    assert!(!file_util::gcs::find_bucket(&names, "gamma"));
    assert!(!file_util::gcs::find_bucket(&Vec::new(), "alpha"));
}
