//! The submission side: identity generation with a process-lifetime
//! uniqueness guarantee, and the fire-and-forget hand-off of a new job to
//! the queue store.

use vstd::prelude::*;

use crate::codec::{encode, prompts_view, spec_decode, spec_encode, PromptMessage,
    QueuedCompletionJob};
use crate::numerals::{dec_seq, lemma_dec_seq_injective, lemma_dec_seq_len, push_dec};
use crate::text::push_char;

verus! {

/// The request body of a submission: the prompts to run.
pub struct CompletionRequest {
    pub prompts: Vec<PromptMessage>,
}

/// The immediate response of a submission: the generated job identity, and
/// an error text when the hand-off to the queue store failed.
pub struct CompletionResponse {
    pub job_id: String,
    pub error: Option<String>,
}

/// Relies on `uuid::Uuid::new_v4` and its `Display` form: a random
/// version-4 UUID written in the hyphenated textual form, which is exactly
/// 36 characters. Nothing is assumed about which value is drawn.
#[verifier::external_body]
fn random_identity() -> (r: String)
    ensures
        r@.len() == 36,
{
    uuid::Uuid::new_v4().to_string()
}

/// An identity that did not come from the random draw: the draw's text
/// extended with `-` and the count of identities issued before it.
pub open spec fn extended_shape(s: Seq<char>, i: nat) -> bool {
    &&& s.len() == 37 + dec_seq(i).len()
    &&& s.subrange(36, s.len() as int) == seq!['-'] + dec_seq(i)
}

/// Issues job identities and remembers every identity it ever issued, so
/// that no identity is issued twice in the lifetime of the process.
///
/// An identity is a freshly drawn random UUID whenever that draw is new; on
/// the (practically impossible) draw of an already-issued text, the draw is
/// extended with a suffix that no earlier identity can carry.
pub struct JobRegistry {
    issued: Vec<String>,
}

impl View for JobRegistry {
    type V = Seq<Seq<char>>;

    closed spec fn view(&self) -> Seq<Seq<char>> {
        Seq::new(self.issued@.len(), |i: int| self.issued@[i]@)
    }
}

impl JobRegistry {
    pub closed spec fn wf(&self) -> bool {
        &&& forall|i: int, j: int| 0 <= i < j < self@.len() ==> self@[i] != self@[j]
        &&& forall|i: int|
            0 <= i < self@.len() ==> (#[trigger] self@[i]).len() == 36 || extended_shape(
                self@[i],
                i as nat,
            )
    }

    /// An empty registry: no identity issued yet.
    pub fn new() -> (r: JobRegistry)
        ensures
            r.wf(),
            r@ == Seq::<Seq<char>>::empty(),
    {
        let r = JobRegistry { issued: Vec::new() };
        proof {
            assert(r@ =~= Seq::<Seq<char>>::empty());
        }
        r
    }

    /// Whether `id` was issued before.
    fn contains_id(&self, id: &String) -> (b: bool)
        ensures
            b == self@.contains(id@),
    {
        let n = self.issued.len();
        let mut k: usize = 0;
        while k < n
            invariant
                n == self.issued@.len(),
                0 <= k <= n,
                forall|j: int| 0 <= j < k ==> self@[j] != id@,
            decreases n - k,
        {
            if self.issued[k].eq(id) {
                assert(self@[k as int] == id@);
                return true;
            }
            k += 1;
        }
        assert(!self@.contains(id@));
        false
    }

    /// Issues the next job identity: never one that was issued before, and
    /// remembered so that it is never issued again.
    pub fn fresh_identity(&mut self) -> (id: String)
        requires
            old(self).wf(),
        ensures
            final(self).wf(),
            !old(self)@.contains(id@),
            final(self)@ == old(self)@.push(id@),
    {
        let candidate = random_identity();
        if !self.contains_id(&candidate) {
            let id = candidate.clone();
            self.issued.push(candidate);
            proof {
                assert(self@ =~= old(self)@.push(id@));
                assert(self.wf());
            }
            return id;
        }
        let mut extended = candidate;
        push_char(&mut extended, '-');
        let n = self.issued.len();
        push_dec(&mut extended, n as u64);
        proof {
            lemma_dec_seq_len(n as nat);
            assert(extended@.len() == 37 + dec_seq(n as nat).len());
            assert(extended@.subrange(36, extended@.len() as int) =~= seq!['-'] + dec_seq(
                n as nat,
            ));
            assert(extended_shape(extended@, n as nat));
            assert forall|i: int| 0 <= i < n implies self@[i] != extended@ by {
                if self@[i].len() == 36 {
                    assert(extended@.len() >= 38);
                } else {
                    assert(extended_shape(self@[i], i as nat));
                    if self@[i] == extended@ {
                        assert(self@[i].subrange(36, self@[i].len() as int) == extended@.subrange(
                            36,
                            extended@.len() as int,
                        ));
                        assert(seq!['-'] + dec_seq(i as nat) == seq!['-'] + dec_seq(n as nat));
                        assert((seq!['-'] + dec_seq(i as nat)).subrange(
                            1,
                            (seq!['-'] + dec_seq(i as nat)).len() as int,
                        ) =~= dec_seq(i as nat));
                        assert((seq!['-'] + dec_seq(n as nat)).subrange(
                            1,
                            (seq!['-'] + dec_seq(n as nat)).len() as int,
                        ) =~= dec_seq(n as nat));
                        lemma_dec_seq_injective(i as nat, n as nat);
                        assert(false);
                    }
                }
            }
            assert(!old(self)@.contains(extended@));
        }
        let id = extended.clone();
        self.issued.push(extended);
        proof {
            assert(self@ =~= old(self)@.push(id@));
            assert(self.wf());
        }
        id
    }
}

/// No two submissions ever receive the same identity: every well-formed
/// registry's issued identities are pairwise distinct across the process
/// lifetime.
pub proof fn lemma_identities_unique(r: JobRegistry)
    requires
        r.wf(),
    ensures
        forall|i: int, j: int| 0 <= i < j < r@.len() ==> r@[i] != r@[j],
{
}

/// Builds the submission hand-off: assigns a fresh identity, forms the
/// queued job, and encodes it for the queue store. The caller pushes the
/// returned payload and replies with the identity at once, without waiting
/// for any execution.
pub fn build_submission(registry: &mut JobRegistry, prompts: Vec<PromptMessage>) -> (r: (
    QueuedCompletionJob,
    String,
))
    requires
        old(registry).wf(),
    ensures
        final(registry).wf(),
        !old(registry)@.contains(r.0@.job_id),
        final(registry)@ == old(registry)@.push(r.0@.job_id),
        r.0@.prompts == prompts_view(prompts@),
        r.1@ == spec_encode(r.0@),
        spec_decode(r.1@) == Some(r.0@),
{
    let id = registry.fresh_identity();
    let job = QueuedCompletionJob { job_id: id, prompts };
    let payload = encode(&job);
    (job, payload)
}

} // verus!
