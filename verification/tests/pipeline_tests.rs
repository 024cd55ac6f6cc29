use release_pipeline::catalog::{select_latest_release, Release, Root};
use release_pipeline::integrity::{hash_matches, validate_file_hash};
use release_pipeline::pipeline::verify_downloaded_archive;
use release_pipeline::endpoint::{catalog_request_url, u8_to_decimal};
use release_pipeline::PipelineError;

// SHA-256 digests of the fixture payloads, lowercase hex.
const HELLO_SHA256: &str = "2cf24dba5fb0a30e26e83b2ac5b9e29e1b161e5c1fa7425e73043362938b9824";
const PAYLOAD_SHA256: &str = "cb2795b72970dac04b7c640b39ac39af4299917e9ae16e6db1b2bd218a498a2a";
const EMPTY_SHA256: &str = "e3b0c44298fc1c149afbf4c8996fb92427ae41e4649b934ca495991b7852b855";

fn make_release(id: &str, archive_url: &str, archive_sha256: &str) -> Release {
    Release {
        id: id.to_string(),
        name: format!("release {id}"),
        release_date: "2024-01-01".to_string(),
        archive_file_url: archive_url.to_string(),
        archive_file_name: "file.zip".to_string(),
        archive_file_size_bytes: 5,
        archive_file_sha256: archive_sha256.to_string(),
        archive_file_last_modified_timestamp: "2024-01-01T00:00:00".to_string(),
        checksum_file_url: "https://x/file.xml".to_string(),
        checksum_file_name: "file.xml".to_string(),
        checksum_file_size_bytes: 1,
        checksum_file_last_modified_timestamp: "2024-01-01T00:00:00".to_string(),
        signature_file_url: "https://x/file.sig".to_string(),
        signature_file_name: "file.sig".to_string(),
        signature_file_size_bytes: 1,
        signature_file_last_modified_timestamp: "2024-01-01T00:00:00".to_string(),
        public_key_file_url: "https://x/key.asc".to_string(),
        public_key_file_name: "key.asc".to_string(),
        public_key_file_size_bytes: 1,
        public_key_id: 7,
    }
}

fn make_catalog(releases: Vec<Release>) -> Root {
    Root {
        api_version: "1".to_string(),
        releases,
        http_status: 200,
        message: "OK".to_string(),
    }
}

#[test]
fn t_select_first_of_many() {
    let catalog = make_catalog(vec![
        make_release("r1", "https://x/a.zip", HELLO_SHA256),
        make_release("r2", "https://x/b.zip", PAYLOAD_SHA256),
        make_release("r3", "https://x/c.zip", EMPTY_SHA256),
    ]);
    let selected = select_latest_release(&catalog).expect("selection must succeed");
    assert_eq!(selected.id, "r1");
    assert_eq!(selected.archive_file_url, "https://x/a.zip");
}

#[test]
fn t_select_single_release() {
    let catalog = make_catalog(vec![make_release("only", "https://x/a.zip", HELLO_SHA256)]);
    let selected = select_latest_release(&catalog).expect("selection must succeed");
    assert_eq!(selected.id, "only");
}

#[test]
fn t_empty_catalog_rejected() {
    let catalog = make_catalog(vec![]);
    let outcome = select_latest_release(&catalog);
    assert!(matches!(outcome, Err(PipelineError::Decode)));
}

#[test]
fn t_validate_accepts_matching_digest() {
    let bytes = b"hello".to_vec();
    let expected = HELLO_SHA256.to_uppercase();
    assert_eq!(validate_file_hash(&bytes, &expected), Ok(()));
}

#[test]
fn t_validate_accepts_empty_payload() {
    let bytes: Vec<u8> = Vec::new();
    let expected = EMPTY_SHA256.to_uppercase();
    assert_eq!(validate_file_hash(&bytes, &expected), Ok(()));
}

#[test]
fn t_validate_rejects_wrong_digest() {
    let bytes = b"hello".to_vec();
    let expected = PAYLOAD_SHA256.to_uppercase();
    assert_eq!(
        validate_file_hash(&bytes, &expected),
        Err(PipelineError::Integrity)
    );
}

#[test]
fn t_validate_accepts_lowercase_announced_digest() {
    // The comparison is case-insensitive on both sides, so an announced
    // digest written in lowercase matches all the same.
    let bytes = b"hello".to_vec();
    let expected = HELLO_SHA256.to_string();
    assert_eq!(validate_file_hash(&bytes, &expected), Ok(()));
}

#[test]
fn t_hash_matches_case_insensitive() {
    assert!(hash_matches("abc", "ABC"));
    assert!(hash_matches("a1f", "A1F"));
    assert!(hash_matches("abc", "abc"));
    assert!(hash_matches("ABC", "abc"));
    assert!(!hash_matches("abc", "ABD"));
    assert!(!hash_matches("abc", "AB"));
    assert!(hash_matches("", ""));
}

#[test]
fn t_scenario_success_case_differs() {
    // Metadata announces the digest in uppercase; the archive bytes hash to
    // the same digest in lowercase. The run succeeds and the stored bytes are
    // exactly the downloaded bytes.
    let catalog = make_catalog(vec![make_release(
        "r1",
        "https://x/file.zip",
        &HELLO_SHA256.to_uppercase(),
    )]);
    let release = select_latest_release(&catalog).expect("selection must succeed");
    let downloaded = b"hello".to_vec();
    let stored = downloaded.clone();
    let outcome = verify_downloaded_archive(Ok(stored.clone()), &release.archive_file_sha256);
    assert_eq!(outcome, Ok(5));
    assert_eq!(stored, downloaded);
}

#[test]
fn t_scenario_corrupted_download() {
    let catalog = make_catalog(vec![make_release(
        "r1",
        "https://x/file.zip",
        &HELLO_SHA256.to_uppercase(),
    )]);
    let release = select_latest_release(&catalog).expect("selection must succeed");
    let tampered = b"hell0".to_vec();
    let outcome = verify_downloaded_archive(Ok(tampered), &release.archive_file_sha256);
    assert_eq!(outcome, Err(PipelineError::Integrity));
}

#[test]
fn t_transport_failure_propagates() {
    let expected = HELLO_SHA256.to_uppercase();
    let outcome = verify_downloaded_archive(Err(PipelineError::Transport), &expected);
    assert_eq!(outcome, Err(PipelineError::Transport));
}

#[test]
fn t_filesystem_failure_propagates() {
    let expected = HELLO_SHA256.to_uppercase();
    let outcome = verify_downloaded_archive(Err(PipelineError::Filesystem), &expected);
    assert_eq!(outcome, Err(PipelineError::Filesystem));
}

#[test]
fn t_verify_reports_downloaded_size() {
    let bytes = b"release archive payload".to_vec();
    let expected = PAYLOAD_SHA256.to_uppercase();
    let outcome = verify_downloaded_archive(Ok(bytes.clone()), &expected);
    assert_eq!(outcome, Ok(bytes.len()));
}

#[test]
fn t_two_runs_store_identical_bytes() {
    // Idempotence on concrete values: an unchanged remote release gives the
    // same outcome twice, and the stored bytes are byte-identical.
    let catalog = make_catalog(vec![make_release(
        "r1",
        "https://x/file.zip",
        &HELLO_SHA256.to_uppercase(),
    )]);
    let downloaded = b"hello".to_vec();

    let release_one = select_latest_release(&catalog).expect("selection must succeed");
    let stored_one = downloaded.clone();
    let outcome_one =
        verify_downloaded_archive(Ok(stored_one.clone()), &release_one.archive_file_sha256);

    let release_two = select_latest_release(&catalog).expect("selection must succeed");
    let stored_two = downloaded.clone();
    let outcome_two =
        verify_downloaded_archive(Ok(stored_two.clone()), &release_two.archive_file_sha256);

    assert_eq!(outcome_one, outcome_two);
    assert_eq!(stored_one, stored_two);
}

#[test]
fn t_describe_names_integrity_failure() {
    assert_eq!(
        PipelineError::Integrity.describe(),
        "calculated hash differed from the provided hash: file corrupted"
    );
    assert_eq!(
        PipelineError::Decode.describe(),
        "release metadata did not decode or listed no releases"
    );
}

#[test]
fn t_decimal_rendering() {
    assert_eq!(u8_to_decimal(0), "0");
    assert_eq!(u8_to_decimal(7), "7");
    assert_eq!(u8_to_decimal(24), "24");
    assert_eq!(u8_to_decimal(100), "100");
    assert_eq!(u8_to_decimal(255), "255");
}

#[test]
fn t_catalog_request_url() {
    let url = catalog_request_url(24, "SECRET-REDACTED");
    assert_eq!(
        url,
        "https://isd.digital.nhs.uk/trud/api/v1/keys/SECRET-REDACTED/items/24/releases?latest"
    );
}
