use rustybot::codec::{decode, encode, PromptMessage, PromptRole, QueuedCompletionJob};

fn job(id: &str, prompts: Vec<(PromptRole, &str)>) -> QueuedCompletionJob {
    QueuedCompletionJob {
        job_id: id.to_string(),
        prompts: prompts
            .into_iter()
            .map(|(role, content)| PromptMessage { role, content: content.to_string() })
            .collect(),
    }
}

#[test]
fn round_trip_single_prompt() {
    let q = job("J1", vec![(PromptRole::User, "Hello")]);
    let wire = encode(&q);
    let back = decode(&wire).expect("well-formed wire text must decode");
    assert_eq!(back, q);
}

#[test]
fn round_trip_no_prompts() {
    let q = job("empty-job", vec![]);
    let back = decode(&encode(&q)).unwrap();
    assert_eq!(back, q);
}

#[test]
fn round_trip_all_roles_and_unicode() {
    let q = job(
        "9c3f-u\u{00fc}id",
        vec![
            (PromptRole::System, "You are a helpful assistant."),
            (PromptRole::User, "Quote: \" backslash: \\ newline:\ntab:\tsnowman: \u{2603}"),
            (PromptRole::Assistant, ""),
            (PromptRole::User, "J0000000000000000P"),
        ],
    );
    let back = decode(&encode(&q)).unwrap();
    assert_eq!(back, q);
}

#[test]
fn round_trip_empty_strings() {
    let q = job("", vec![(PromptRole::System, "")]);
    let back = decode(&encode(&q)).unwrap();
    assert_eq!(back, q);
}

#[test]
fn encoding_is_the_documented_format() {
    let q = job("J1", vec![(PromptRole::User, "Hello")]);
    assert_eq!(
        encode(&q),
        "J0000000000000002J1P0000000000000001u0000000000000005Hello"
    );
}

#[test]
fn decode_rejects_malformed_payloads() {
    let wire = encode(&job("J1", vec![(PromptRole::User, "Hello")]));

    // Truncated anywhere: cut off the last character.
    let mut truncated = wire.clone();
    truncated.pop();
    assert!(decode(&truncated).is_err());

    // Trailing garbage after a complete job.
    let mut trailing = wire.clone();
    trailing.push('x');
    assert!(decode(&trailing).is_err());

    // A wrong leading tag.
    let retagged = wire.replacen('J', "K", 1);
    assert!(decode(&retagged).is_err());

    // A length field that is not hexadecimal.
    let bad_digit = "JZ000000000000002J1P0000000000000001u0000000000000005Hello";
    assert!(decode(bad_digit).is_err());

    // An unknown role tag.
    let bad_role = "J0000000000000002J1P0000000000000001x0000000000000005Hello";
    assert!(decode(bad_role).is_err());

    // Free-form text.
    assert!(decode("").is_err());
    assert!(decode("hello world").is_err());
}
