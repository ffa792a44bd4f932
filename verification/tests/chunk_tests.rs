use rustybot::execution::{relay_fragments, topic_for};
use rustybot::job::{ChunkCorrelator, JobMessage};

#[test]
fn chunk_json_is_the_flat_record() {
    let m = JobMessage {
        job_id: "J1".to_string(),
        message_chunk: "Hel".to_string(),
        index: 0,
    };
    assert_eq!(m.to_json(), "{\"job_id\":\"J1\",\"message_chunk\":\"Hel\",\"index\":0}");
}

#[test]
fn chunk_json_escapes_content() {
    let m = JobMessage {
        job_id: "a\"b".to_string(),
        message_chunk: "back\\slash\nnewline\ttab\rcr\u{0001}ctl".to_string(),
        index: 12345,
    };
    assert_eq!(
        m.to_json(),
        "{\"job_id\":\"a\\\"b\",\"message_chunk\":\"back\\\\slash\\nnewline\\ttab\\rcr\\u0001ctl\",\"index\":12345}"
    );
}

#[test]
fn chunk_json_parses_back_with_a_json_parser() {
    let m = JobMessage {
        job_id: "j-\u{00e9}\"\\".to_string(),
        message_chunk: "line1\nline2\u{0007}".to_string(),
        index: 42,
    };
    let v: serde_json::Value = serde_json::from_str(&m.to_json()).unwrap();
    assert_eq!(v.get("job_id").unwrap().as_str().unwrap(), m.job_id);
    assert_eq!(v.get("message_chunk").unwrap().as_str().unwrap(), m.message_chunk);
    assert_eq!(v.get("index").unwrap().as_u64().unwrap(), 42);
}

#[test]
fn chunk_json_renders_large_indices_in_decimal() {
    let m = JobMessage {
        job_id: "J".to_string(),
        message_chunk: "x".to_string(),
        index: u64::MAX,
    };
    assert_eq!(
        m.to_json(),
        "{\"job_id\":\"J\",\"message_chunk\":\"x\",\"index\":18446744073709551615}"
    );
}

#[test]
fn correlator_indices_are_contiguous_from_zero() {
    let mut c = ChunkCorrelator::new("job-7".to_string());
    let fragments = ["a", "b", "c", "d", "e"];
    for (expected_index, fragment) in fragments.iter().enumerate() {
        let m = c.next_chunk(fragment);
        assert_eq!(m.index, expected_index as u64);
        assert_eq!(m.job_id, "job-7");
        assert_eq!(m.message_chunk, *fragment);
    }
}

#[test]
fn end_to_end_two_fragments() {
    let fragments = vec!["Hel".to_string(), "lo".to_string()];
    let pubs = relay_fragments("J1", "prefix", &fragments);
    assert_eq!(pubs.len(), 2);
    assert_eq!(pubs[0].topic, "prefixJ1");
    assert_eq!(pubs[1].topic, "prefixJ1");
    assert_eq!(pubs[0].payload, "{\"job_id\":\"J1\",\"message_chunk\":\"Hel\",\"index\":0}");
    assert_eq!(pubs[1].payload, "{\"job_id\":\"J1\",\"message_chunk\":\"lo\",\"index\":1}");
}

#[test]
fn interleaved_jobs_keep_their_own_order() {
    // Two executions running concurrently: their publishes interleave in
    // time, but each job's indices stay internally ordered.
    let mut a = ChunkCorrelator::new("job-a".to_string());
    let mut b = ChunkCorrelator::new("job-b".to_string());
    let mut a_indices = Vec::new();
    let mut b_indices = Vec::new();
    for step in 0..6 {
        if step % 2 == 0 {
            let m = a.next_chunk("fragment");
            assert_eq!(m.job_id, "job-a");
            a_indices.push(m.index);
        } else {
            let m = b.next_chunk("fragment");
            assert_eq!(m.job_id, "job-b");
            b_indices.push(m.index);
        }
    }
    assert_eq!(a_indices, vec![0, 1, 2]);
    assert_eq!(b_indices, vec![0, 1, 2]);
}

#[test]
fn topic_is_prefix_then_job_id() {
    assert_eq!(topic_for("jobs/", "J1"), "jobs/J1");
    assert_eq!(topic_for("", "J1"), "J1");
}
