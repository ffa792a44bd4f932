//! One accepted job and its streamed output: the per-job chunk correlator
//! attaches a contiguous sequence index to every fragment the completion
//! call emits, and each chunk is rendered as a flat JSON record for the
//! publish/subscribe channel.

use vstd::prelude::*;

use crate::codec::PromptMessage;
use crate::numerals::{dec_seq, hex_seq, push_dec, push_hex2};
use crate::text::push_char;
use vstd::string::{StrSliceExecFns, StringExecFns};

verus! {

/// One streamed fragment, tagged with its job and sequence index; the
/// payload published to subscribers.
pub struct JobMessage {
    pub job_id: String,
    pub message_chunk: String,
    pub index: u64,
}

pub struct JobMessageV {
    pub job_id: Seq<char>,
    pub message_chunk: Seq<char>,
    pub index: u64,
}

impl View for JobMessage {
    type V = JobMessageV;

    open spec fn view(&self) -> JobMessageV {
        JobMessageV {
            job_id: self.job_id@,
            message_chunk: self.message_chunk@,
            index: self.index,
        }
    }
}

/// How one character is written inside a JSON string literal.
pub open spec fn json_escape_char(c: char) -> Seq<char> {
    if c == '"' {
        seq!['\\', '"']
    } else if c == '\\' {
        seq!['\\', '\\']
    } else if c == '\n' {
        seq!['\\', 'n']
    } else if c == '\r' {
        seq!['\\', 'r']
    } else if c == '\t' {
        seq!['\\', 't']
    } else if (c as u32) < 32 {
        seq!['\\', 'u', '0', '0'] + hex_seq(c as u32 as nat, 2)
    } else {
        seq![c]
    }
}

pub open spec fn json_escape(s: Seq<char>) -> Seq<char>
    decreases s.len(),
{
    if s.len() == 0 {
        Seq::empty()
    } else {
        json_escape_char(s[0]) + json_escape(s.subrange(1, s.len() as int))
    }
}

proof fn lemma_json_escape_concat(a: Seq<char>, b: Seq<char>)
    ensures
        json_escape(a + b) == json_escape(a) + json_escape(b),
    decreases a.len(),
{
    if a.len() == 0 {
        assert(a + b =~= b);
        assert(json_escape(a) + json_escape(b) =~= json_escape(b));
    } else {
        assert((a + b)[0] == a[0]);
        assert((a + b).subrange(1, (a + b).len() as int) =~= a.subrange(1, a.len() as int) + b);
        lemma_json_escape_concat(a.subrange(1, a.len() as int), b);
        assert(json_escape_char(a[0]) + (json_escape(a.subrange(1, a.len() as int)) + json_escape(
            b,
        )) =~= (json_escape_char(a[0]) + json_escape(a.subrange(1, a.len() as int)))
            + json_escape(b));
    }
}

proof fn lemma_json_escape_snoc(s: Seq<char>, i: int)
    requires
        0 <= i < s.len(),
    ensures
        json_escape(s.subrange(0, i + 1)) == json_escape(s.subrange(0, i)) + json_escape_char(
            s[i],
        ),
{
    assert(s.subrange(0, i + 1) =~= s.subrange(0, i) + seq![s[i]]);
    lemma_json_escape_concat(s.subrange(0, i), seq![s[i]]);
    assert(seq![s[i]].subrange(1, 1) =~= Seq::<char>::empty());
    assert(json_escape(Seq::<char>::empty()) == Seq::<char>::empty());
    assert(json_escape(seq![s[i]]) == json_escape_char(s[i]) + json_escape(
        Seq::<char>::empty(),
    ));
    assert(json_escape_char(s[i]) + Seq::<char>::empty() =~= json_escape_char(s[i]));
    assert(json_escape(s.subrange(0, i)) + (json_escape_char(s[i]) + Seq::<char>::empty())
        =~= json_escape(s.subrange(0, i)) + json_escape_char(s[i]));
}

/// Appends `s` with JSON string escaping applied.
fn append_json_escaped(out: &mut String, s: &str)
    ensures
        final(out)@ == old(out)@ + json_escape(s@),
{
    let n = s.unicode_len();
    let mut i: usize = 0;
    assert(out@ =~= old(out)@ + json_escape(s@.subrange(0, 0)));
    while i < n
        invariant
            n == s@.len(),
            0 <= i <= n,
            out@ == old(out)@ + json_escape(s@.subrange(0, i as int)),
        decreases n - i,
    {
        let c = s.get_char(i);
        if c == '"' {
            push_char(out, '\\');
            push_char(out, '"');
        } else if c == '\\' {
            push_char(out, '\\');
            push_char(out, '\\');
        } else if c == '\n' {
            push_char(out, '\\');
            push_char(out, 'n');
        } else if c == '\r' {
            push_char(out, '\\');
            push_char(out, 'r');
        } else if c == '\t' {
            push_char(out, '\\');
            push_char(out, 't');
        } else if (c as u32) < 32 {
            push_char(out, '\\');
            push_char(out, 'u');
            push_char(out, '0');
            push_char(out, '0');
            push_hex2(out, (c as u32) as u8);
        } else {
            push_char(out, c);
        }
        proof {
            lemma_json_escape_snoc(s@, i as int);
            assert(out@ =~= old(out)@ + json_escape(s@.subrange(0, i + 1)));
        }
        i += 1;
    }
    assert(s@.subrange(0, n as int) =~= s@);
}

/// The flat JSON record `{job_id, message_chunk, index}` for one chunk.
pub open spec fn spec_json_chunk(m: JobMessageV) -> Seq<char> {
    "{\"job_id\":\""@ + json_escape(m.job_id) + "\",\"message_chunk\":\""@ + json_escape(
        m.message_chunk,
    ) + "\",\"index\":"@ + dec_seq(m.index as nat) + seq!['}']
}

impl JobMessage {
    /// Renders the chunk as its flat JSON wire record.
    pub fn to_json(&self) -> (r: String)
        ensures
            r@ == spec_json_chunk(self@),
    {
        let mut out = String::new();
        out.append("{\"job_id\":\"");
        append_json_escaped(&mut out, self.job_id.as_str());
        out.append("\",\"message_chunk\":\"");
        append_json_escaped(&mut out, self.message_chunk.as_str());
        out.append("\",\"index\":");
        push_dec(&mut out, self.index);
        push_char(&mut out, '}');
        assert(out@ =~= spec_json_chunk(self@));
        out
    }
}

/// Wraps one job's fragment stream: hands out chunks carrying the job's
/// identity and a sequence index that starts at 0 and increases by exactly
/// one per fragment, so the indices of the chunks of any single execution
/// are contiguous, strictly increasing and gap-free.
pub struct ChunkCorrelator {
    job_id: String,
    next_index: u64,
    history: Ghost<Seq<JobMessageV>>,
}

impl View for ChunkCorrelator {
    type V = Seq<JobMessageV>;

    closed spec fn view(&self) -> Seq<JobMessageV> {
        self.history@
    }
}

impl ChunkCorrelator {
    pub closed spec fn spec_job_id(&self) -> Seq<char> {
        self.job_id@
    }

    pub closed spec fn wf(&self) -> bool {
        &&& self.next_index == self.history@.len()
        &&& forall|i: int|
            0 <= i < self.history@.len() ==> (#[trigger] self.history@[i]).index == i
                && self.history@[i].job_id == self.job_id@
    }

    /// A correlator for one job, its index counter at 0.
    pub fn new(job_id: String) -> (c: ChunkCorrelator)
        ensures
            c.wf(),
            c@ == Seq::<JobMessageV>::empty(),
            c.spec_job_id() == job_id@,
    {
        ChunkCorrelator { job_id, next_index: 0, history: Ghost(Seq::empty()) }
    }

    /// Packages the next fragment: the chunk carries the job identity, the
    /// fragment text and the current index, and the counter moves up by one.
    pub fn next_chunk(&mut self, fragment: &str) -> (m: JobMessage)
        requires
            old(self).wf(),
            old(self)@.len() < u64::MAX,
        ensures
            final(self).wf(),
            final(self).spec_job_id() == old(self).spec_job_id(),
            m@.job_id == old(self).spec_job_id(),
            m@.message_chunk == fragment@,
            m@.index == old(self)@.len(),
            final(self)@ == old(self)@.push(m@),
    {
        let m = JobMessage {
            job_id: self.job_id.clone(),
            message_chunk: fragment.to_owned(),
            index: self.next_index,
        };
        self.next_index = self.next_index + 1;
        proof {
            self.history@ = self.history@.push(m@);
        }
        m
    }
}

/// The indices a well-formed correlator has handed out are exactly
/// `0 .. N-1`: the chunk at position `i` of the history carries index `i`
/// and the job's own identity, so they are strictly increasing with no gaps
/// and no duplicates.
pub proof fn lemma_chunk_indices_contiguous(c: ChunkCorrelator)
    requires
        c.wf(),
    ensures
        forall|i: int|
            0 <= i < c@.len() ==> (#[trigger] c@[i]).index == i && c@[i].job_id
                == c.spec_job_id(),
        forall|i: int, j: int| 0 <= i < j < c@.len() ==> c@[i].index < c@[j].index,
{
}

/// One dispatched job: its identity and the prompts handed to the
/// completion call.
pub struct Job {
    pub job_id: String,
    pub prompts: Vec<PromptMessage>,
}

/// Step-wise construction of a [`Job`].
pub struct JobBuilder {
    job_id: String,
    prompts: Vec<PromptMessage>,
}

impl JobBuilder {
    pub closed spec fn spec_job_id(&self) -> Seq<char> {
        self.job_id@
    }

    pub closed spec fn spec_prompts(&self) -> Seq<PromptMessage> {
        self.prompts@
    }

    /// A builder for the job with the given identity and no prompts yet.
    pub fn new(id: String) -> (b: JobBuilder)
        ensures
            b.spec_job_id() == id@,
            b.spec_prompts() == Seq::<PromptMessage>::empty(),
    {
        JobBuilder { job_id: id, prompts: Vec::new() }
    }

    /// Replaces the builder's prompt sequence.
    pub fn set_messages(self, messages: Vec<PromptMessage>) -> (b: JobBuilder)
        ensures
            b.spec_job_id() == self.spec_job_id(),
            b.spec_prompts() == messages@,
    {
        JobBuilder { prompts: messages, ..self }
    }

    /// The finished job.
    pub fn finalize(self) -> (j: Job)
        ensures
            j.job_id@ == self.spec_job_id(),
            j.prompts@ == self.spec_prompts(),
    {
        Job { job_id: self.job_id, prompts: self.prompts }
    }
}

} // verus!
