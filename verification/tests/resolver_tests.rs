use artifact_proxy::artifact::select_artifact;
use artifact_proxy::hashing::{content_hash_value, sha256_digest};
use artifact_proxy::model::{Artifact, Job, JobStatus, WorkflowRun};
use artifact_proxy::response::{content_disposition_value, not_found, success_response};
use artifact_proxy::select::{all_jobs_completed, completed_run_ids, RunSelector};

fn run(id: u64, status: &str) -> WorkflowRun {
    WorkflowRun { id, status: status.to_string() }
}

fn job(status: JobStatus) -> Job {
    Job { status }
}

fn artifact(id: u64, name: &str, expired: bool) -> Artifact {
    Artifact { id, name: name.to_string(), expired }
}

#[test]
fn filters_completed_runs_in_order() {
    let runs = vec![
        run(1, "in_progress"),
        run(2, "completed"),
        run(3, "queued"),
        run(4, "completed"),
    ];
    assert_eq!(completed_run_ids(&runs), vec![2, 4]);
}

#[test]
fn selects_first_qualifying_run() {
    let runs = vec![run(1, "in_progress"), run(2, "completed")];
    let mut selector = RunSelector::new(&runs);
    assert_eq!(selector.next_candidate(), Some(2));
    let accepted = selector.offer_jobs(&vec![job(JobStatus::Completed)]);
    assert!(accepted);
    assert_eq!(selector.selected(), Some(2));
}

#[test]
fn no_completed_runs_means_no_candidates() {
    let runs = vec![run(1, "in_progress"), run(2, "queued")];
    let selector = RunSelector::new(&runs);
    assert_eq!(selector.next_candidate(), None);
    assert_eq!(selector.selected(), None);
}

#[test]
fn no_runs_at_all_yields_not_found() {
    let selector = RunSelector::new(&Vec::new());
    assert_eq!(selector.next_candidate(), None);
    let response = not_found();
    assert_eq!(response.status, 404);
    assert!(response.body.is_empty());
    assert!(response.content_length.is_none());
    assert!(response.content_disposition.is_none());
    assert!(response.content_hash.is_none());
}

#[test]
fn skips_run_with_incomplete_job() {
    let runs = vec![run(5, "completed"), run(6, "completed")];
    let mut selector = RunSelector::new(&runs);
    assert_eq!(selector.next_candidate(), Some(5));
    let accepted = selector.offer_jobs(&vec![
        job(JobStatus::Completed),
        job(JobStatus::InProgress),
    ]);
    assert!(!accepted);
    assert_eq!(selector.selected(), None);
    assert_eq!(selector.next_candidate(), Some(6));
    let accepted = selector.offer_jobs(&vec![job(JobStatus::Completed)]);
    assert!(accepted);
    assert_eq!(selector.selected(), Some(6));
}

#[test]
fn all_candidates_rejected_ends_the_scan() {
    let runs = vec![run(7, "completed")];
    let mut selector = RunSelector::new(&runs);
    assert_eq!(selector.next_candidate(), Some(7));
    let accepted = selector.offer_jobs(&vec![job(JobStatus::Queued)]);
    assert!(!accepted);
    assert_eq!(selector.next_candidate(), None);
    assert_eq!(selector.selected(), None);
}

#[test]
fn empty_job_list_counts_as_success() {
    assert!(all_jobs_completed(&Vec::new()));
    let runs = vec![run(9, "completed")];
    let mut selector = RunSelector::new(&runs);
    assert_eq!(selector.next_candidate(), Some(9));
    let accepted = selector.offer_jobs(&Vec::new());
    assert!(accepted);
    assert_eq!(selector.selected(), Some(9));
}

#[test]
fn job_list_with_any_incomplete_job_fails() {
    assert!(all_jobs_completed(&vec![job(JobStatus::Completed)]));
    assert!(!all_jobs_completed(&vec![
        job(JobStatus::Completed),
        job(JobStatus::Pending),
    ]));
}

#[test]
fn selects_first_non_expired_artifact() {
    let artifacts = vec![
        artifact(10, "build", true),
        artifact(11, "build2", false),
        artifact(12, "build3", false),
    ];
    assert_eq!(select_artifact(Some(&artifacts)), Some(1));
    assert_eq!(artifacts[1].id, 11);
}

#[test]
fn all_expired_artifacts_yield_none() {
    let artifacts = vec![artifact(10, "build", true), artifact(11, "build2", true)];
    assert_eq!(select_artifact(Some(&artifacts)), None);
    let response = not_found();
    assert_eq!(response.status, 404);
    assert!(response.body.is_empty());
}

#[test]
fn missing_artifact_container_yields_none() {
    assert_eq!(select_artifact(None), None);
}

#[test]
fn sha256_digest_matches_known_vectors() {
    let empty: Vec<u8> = Vec::new();
    let expected_empty = [
        0xe3, 0xb0, 0xc4, 0x42, 0x98, 0xfc, 0x1c, 0x14, 0x9a, 0xfb, 0xf4, 0xc8, 0x99, 0x6f,
        0xb9, 0x24, 0x27, 0xae, 0x41, 0xe4, 0x64, 0x9b, 0x93, 0x4c, 0xa4, 0x95, 0x99, 0x1b,
        0x78, 0x52, 0xb8, 0x55,
    ];
    assert_eq!(sha256_digest(&empty), expected_empty.to_vec());
    let expected_abc = [
        0xba, 0x78, 0x16, 0xbf, 0x8f, 0x01, 0xcf, 0xea, 0x41, 0x41, 0x40, 0xde, 0x5d, 0xae,
        0x22, 0x23, 0xb0, 0x03, 0x61, 0xa3, 0x96, 0x17, 0x7a, 0x9c, 0xb4, 0x10, 0xff, 0x61,
        0xf2, 0x00, 0x15, 0xad,
    ];
    assert_eq!(sha256_digest(b"abc"), expected_abc.to_vec());
}

#[test]
fn sha256_digest_covers_multiple_chunks() {
    // 3000 bytes forces the 1024-byte feeding loop through two full
    // windows and a partial one; compare against a one-shot digest.
    let payload = vec![0x5au8; 3000];
    let one_shot = ring::digest::digest(&ring::digest::SHA256, &payload);
    assert_eq!(sha256_digest(&payload), one_shot.as_ref().to_vec());
}

#[test]
fn content_hash_has_prefix_and_lowercase_hex() {
    let empty: Vec<u8> = Vec::new();
    assert_eq!(
        content_hash_value(&empty),
        "sha256-e3b0c44298fc1c149afbf4c8996fb92427ae41e4649b934ca495991b7852b855"
    );
    assert_eq!(
        content_hash_value(b"abc"),
        "sha256-ba7816bf8f01cfea414140de5dae2223b00361a396177a9cb410ff61f20015ad"
    );
}

#[test]
fn content_disposition_names_the_artifact() {
    assert_eq!(
        content_disposition_value("build2"),
        "attachment; filename=\"build2.zip\""
    );
}

#[test]
fn get_response_carries_payload_and_headers() {
    let payload = b"PKzip...".to_vec();
    let expected_hash = format!(
        "sha256-{}",
        data_encoding::HEXLOWER.encode(ring::digest::digest(&ring::digest::SHA256, &payload).as_ref())
    );
    let response = success_response(true, "build2", payload.clone());
    assert_eq!(response.status, 200);
    assert_eq!(response.content_length, Some(payload.len()));
    assert_eq!(
        response.content_disposition.as_deref(),
        Some("attachment; filename=\"build2.zip\"")
    );
    assert_eq!(response.content_hash.as_deref(), Some(expected_hash.as_str()));
    assert_eq!(response.body, payload);
}

#[test]
fn non_get_response_keeps_headers_but_omits_body() {
    let payload = b"PKzip...".to_vec();
    let get = success_response(true, "build2", payload.clone());
    let other = success_response(false, "build2", payload);
    assert_eq!(other.status, 200);
    assert_eq!(other.content_length, get.content_length);
    assert_eq!(other.content_disposition, get.content_disposition);
    assert_eq!(other.content_hash, get.content_hash);
    assert!(other.body.is_empty());
}
