use std::collections::HashSet;

use rustybot::codec::{decode, PromptMessage, PromptRole};
use rustybot::submit::{CompletionResponse, JobRegistry};

#[test]
fn identities_are_unique_over_many_submissions() {
    let mut registry = JobRegistry::new();
    let mut seen: HashSet<String> = HashSet::new();
    for _ in 0..10_000 {
        let id = registry.fresh_identity();
        assert!(seen.insert(id), "an identity was issued twice");
    }
}

#[test]
fn identities_are_hyphenated_uuid_text() {
    let mut registry = JobRegistry::new();
    let id = registry.fresh_identity();
    assert_eq!(id.len(), 36);
    let hyphens: Vec<usize> = id.match_indices('-').map(|(i, _)| i).collect();
    assert_eq!(hyphens, vec![8, 13, 18, 23]);
}

#[test]
fn submission_payload_decodes_to_the_submitted_job() {
    let mut registry = JobRegistry::new();
    let prompts = vec![
        PromptMessage { role: PromptRole::System, content: "be brief".to_string() },
        PromptMessage { role: PromptRole::User, content: "ping".to_string() },
    ];
    let (job, payload) = rustybot::submit::build_submission(&mut registry, prompts);
    let back = decode(&payload).expect("the hand-off payload must decode");
    assert_eq!(back, job);
    assert_eq!(back.prompts.len(), 2);
    let response = CompletionResponse { job_id: job.job_id.clone(), error: None };
    assert_eq!(response.job_id, job.job_id);
    assert!(response.error.is_none());
}

#[test]
fn distinct_submissions_get_distinct_identities() {
    let mut registry = JobRegistry::new();
    let (job_a, _) = rustybot::submit::build_submission(&mut registry, Vec::new());
    let (job_b, _) = rustybot::submit::build_submission(&mut registry, Vec::new());
    assert_ne!(job_a.job_id, job_b.job_id);
}
