use rustybot::codec::{encode, PromptMessage, PromptRole, QueuedCompletionJob};
use rustybot::dispatch::{dispatch_step, DispatchAction, PollEvent};

#[test]
fn empty_queue_means_one_idle_wait() {
    // An empty poll publishes nothing and waits the configured interval.
    let action = dispatch_step(PollEvent::Empty, 250);
    assert!(matches!(action, DispatchAction::Idle(250)));
}

#[test]
fn unreachable_queue_is_never_fatal() {
    let action = dispatch_step(PollEvent::Unreachable, 250);
    assert!(matches!(action, DispatchAction::Idle(250)));
}

#[test]
fn malformed_payload_is_dropped_without_waiting() {
    // A decode failure drops the job and re-polls at once: the action is
    // Discard, not an idle wait.
    let action = dispatch_step(PollEvent::Payload("not a job".to_string()), 250);
    assert!(matches!(action, DispatchAction::Discard));
}

#[test]
fn well_formed_payload_becomes_one_execution() {
    let job = QueuedCompletionJob {
        job_id: "J9".to_string(),
        prompts: vec![PromptMessage { role: PromptRole::User, content: "hi".to_string() }],
    };
    let wire = encode(&job);
    match dispatch_step(PollEvent::Payload(wire), 250) {
        DispatchAction::Execute(decoded) => assert_eq!(decoded, job),
        _ => panic!("a decodable payload must be executed"),
    }
}
