//! One job execution's relay path: the topic its chunks are routed to, and
//! the full sequence of publications produced for a given fragment stream.
//!
//! The dispatcher spawns one execution per decoded job. The execution owns a
//! [`ChunkCorrelator`] and publishes each fragment as soon as the completion
//! call emits it; a publish failure drops that single chunk and the
//! execution goes on with the remaining fragments. When the completion call
//! fails mid-stream, no further chunks exist, so the publications are those
//! of the fragments that were emitted before the failure.

use vstd::prelude::*;

use crate::job::{spec_json_chunk, ChunkCorrelator, JobMessageV};
use vstd::string::StringExecFns;

verus! {

/// The publish/subscribe routing key for one job: the configured prefix
/// followed by the job identity.
pub fn topic_for(prefix: &str, job_id: &str) -> (t: String)
    ensures
        t@ == prefix@ + job_id@,
{
    let mut t = prefix.to_owned();
    t.append(job_id);
    t
}

/// One message handed to the notification publisher: a routing key and the
/// chunk's JSON payload.
pub struct Publication {
    pub topic: String,
    pub payload: String,
}

/// The chunk record an execution publishes for fragment number `index` of a
/// job.
pub open spec fn chunk_record(job_id: Seq<char>, fragment: Seq<char>, index: u64) -> Seq<char> {
    spec_json_chunk(JobMessageV { job_id, message_chunk: fragment, index })
}

/// The publications of one whole execution: for a job whose completion call
/// emits the given fragments, in order, one publication per fragment, all to
/// the job's topic, carrying the fragment texts under indices `0 .. N-1`.
pub fn relay_fragments(job_id: &str, topic_prefix: &str, fragments: &Vec<String>) -> (pubs: Vec<
    Publication,
>)
    ensures
        pubs@.len() == fragments@.len(),
        forall|i: int|
            0 <= i < pubs@.len() ==> (#[trigger] pubs@[i]).topic@ == topic_prefix@ + job_id@
                && pubs@[i].payload@ == chunk_record(job_id@, fragments@[i]@, i as u64),
{
    let mut correlator = ChunkCorrelator::new(job_id.to_owned());
    let mut pubs: Vec<Publication> = Vec::new();
    let n = fragments.len();
    let mut i: usize = 0;
    while i < n
        invariant
            n == fragments@.len(),
            0 <= i <= n,
            correlator.wf(),
            correlator.spec_job_id() == job_id@,
            correlator@.len() == i,
            pubs@.len() == i,
            forall|k: int|
                0 <= k < i ==> (#[trigger] pubs@[k]).topic@ == topic_prefix@ + job_id@
                    && pubs@[k].payload@ == chunk_record(job_id@, fragments@[k]@, k as u64),
        decreases n - i,
    {
        let m = correlator.next_chunk(fragments[i].as_str());
        let payload = m.to_json();
        let topic = topic_for(topic_prefix, job_id);
        pubs.push(Publication { topic, payload });
        i += 1;
    }
    pubs
}

} // verus!
