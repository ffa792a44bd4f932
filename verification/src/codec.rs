//! The job codec: a queued completion job and its flat, field-tagged wire
//! text, with encoding, decoding and the round-trip law.
//!
//! A job is written as `J`, the job identity's length as a fixed field of 16
//! lowercase hexadecimal digits, the identity itself, `P`, the number of
//! prompts as another 16-digit field, and then each prompt as its role tag
//! (`s`, `u` or `a`), the content's length as a 16-digit field and the
//! content. Length prefixes make the format self-describing for arbitrary
//! identity and content text.

use vstd::prelude::*;

use crate::numerals::{
    hex_seq, is_hex_digit_char, lemma_hex_seq_len, lemma_hex_seq_parse, lemma_parse_hex_concat,
    lemma_pow16_16, parse_hex, parse_hex_acc, pow16, push_hex16,
};
use crate::text::push_char;
use vstd::string::{StrSliceExecFns, StringExecFns};

verus! {

/// The speaker of one prompt message, as the completion call understands it.
#[derive(Clone, Copy, PartialEq, Eq, Structural, Debug)]
pub enum PromptRole {
    System,
    User,
    Assistant,
}

/// One prompt handed to the completion call, unchanged by this core.
#[derive(PartialEq, Eq, Debug)]
pub struct PromptMessage {
    pub role: PromptRole,
    pub content: String,
}

/// A submitted job: its generated identity and the ordered prompts.
#[derive(PartialEq, Eq, Debug)]
pub struct QueuedCompletionJob {
    pub job_id: String,
    pub prompts: Vec<PromptMessage>,
}

pub struct PromptMessageV {
    pub role: PromptRole,
    pub content: Seq<char>,
}

pub struct QueuedJobV {
    pub job_id: Seq<char>,
    pub prompts: Seq<PromptMessageV>,
}

impl View for PromptMessage {
    type V = PromptMessageV;

    open spec fn view(&self) -> PromptMessageV {
        PromptMessageV { role: self.role, content: self.content@ }
    }
}

pub open spec fn prompts_view(v: Seq<PromptMessage>) -> Seq<PromptMessageV> {
    Seq::new(v.len(), |i: int| v[i]@)
}

impl View for QueuedCompletionJob {
    type V = QueuedJobV;

    open spec fn view(&self) -> QueuedJobV {
        QueuedJobV { job_id: self.job_id@, prompts: prompts_view(self.prompts@) }
    }
}

/// Failure of `decode`: the payload is malformed or truncated.
#[derive(Clone, Copy, PartialEq, Eq, Structural, Debug)]
pub struct DecodeError;

pub open spec fn role_char(r: PromptRole) -> char {
    match r {
        PromptRole::System => 's',
        PromptRole::User => 'u',
        PromptRole::Assistant => 'a',
    }
}

pub open spec fn role_of_char(c: char) -> Option<PromptRole> {
    if c == 's' {
        Some(PromptRole::System)
    } else if c == 'u' {
        Some(PromptRole::User)
    } else if c == 'a' {
        Some(PromptRole::Assistant)
    } else {
        None
    }
}

pub open spec fn spec_encode_prompt(p: PromptMessageV) -> Seq<char> {
    seq![role_char(p.role)] + hex_seq(p.content.len(), 16) + p.content
}

pub open spec fn spec_encode_prompts(ps: Seq<PromptMessageV>) -> Seq<char>
    decreases ps.len(),
{
    if ps.len() == 0 {
        Seq::empty()
    } else {
        spec_encode_prompt(ps[0]) + spec_encode_prompts(ps.subrange(1, ps.len() as int))
    }
}

pub open spec fn spec_encode(j: QueuedJobV) -> Seq<char> {
    seq!['J'] + hex_seq(j.job_id.len(), 16) + j.job_id + seq!['P'] + hex_seq(j.prompts.len(), 16)
        + spec_encode_prompts(j.prompts)
}

/// The prompt section parser: exactly `n` prompts, consuming all of `s`.
pub open spec fn spec_decode_prompts(s: Seq<char>, n: nat) -> Option<Seq<PromptMessageV>>
    decreases n,
{
    if n == 0 {
        if s.len() == 0 {
            Some(Seq::empty())
        } else {
            None
        }
    } else if s.len() < 17 {
        None
    } else {
        match role_of_char(s[0]) {
            None => None,
            Some(role) => match parse_hex(s.subrange(1, 17)) {
                None => None,
                Some(clen) => if s.len() < 17 + clen {
                    None
                } else {
                    let content = s.subrange(17, 17 + clen as int);
                    let rest = s.subrange(17 + clen as int, s.len() as int);
                    match spec_decode_prompts(rest, (n - 1) as nat) {
                        None => None,
                        Some(ps) => Some(
                            seq![PromptMessageV { role, content }] + ps,
                        ),
                    }
                },
            },
        }
    }
}

/// What any wire text means: the job it decodes to, or nothing when it is
/// malformed, truncated, or carries trailing text.
pub open spec fn spec_decode(s: Seq<char>) -> Option<QueuedJobV> {
    if s.len() < 17 || s[0] != 'J' {
        None
    } else {
        match parse_hex(s.subrange(1, 17)) {
            None => None,
            Some(idlen) => if s.len() < 34 + idlen {
                None
            } else {
                let job_id = s.subrange(17, 17 + idlen as int);
                if s[17 + idlen as int] != 'P' {
                    None
                } else {
                    match parse_hex(s.subrange(18 + idlen as int, 34 + idlen as int)) {
                        None => None,
                        Some(pcount) => match spec_decode_prompts(
                            s.subrange(34 + idlen as int, s.len() as int),
                            pcount,
                        ) {
                            None => None,
                            Some(ps) => Some(QueuedJobV { job_id, prompts: ps }),
                        },
                    }
                }
            },
        }
    }
}

/// The bounds under which a job value can be written on the wire: every
/// length fits in its fixed 16-digit field.
pub open spec fn encodable_prompt(p: PromptMessageV) -> bool {
    p.content.len() < pow16(16)
}

pub open spec fn encodable_job(j: QueuedJobV) -> bool {
    &&& j.job_id.len() < pow16(16)
    &&& j.prompts.len() < pow16(16)
    &&& forall|i: int| 0 <= i < j.prompts.len() ==> encodable_prompt(#[trigger] j.prompts[i])
}

proof fn lemma_encode_prompts_concat(a: Seq<PromptMessageV>, b: Seq<PromptMessageV>)
    ensures
        spec_encode_prompts(a + b) == spec_encode_prompts(a) + spec_encode_prompts(b),
    decreases a.len(),
{
    if a.len() == 0 {
        assert(a + b =~= b);
        assert(spec_encode_prompts(a) + spec_encode_prompts(b) =~= spec_encode_prompts(b));
    } else {
        assert((a + b)[0] == a[0]);
        assert((a + b).subrange(1, (a + b).len() as int) =~= a.subrange(1, a.len() as int) + b);
        lemma_encode_prompts_concat(a.subrange(1, a.len() as int), b);
        assert(spec_encode_prompt(a[0]) + (spec_encode_prompts(a.subrange(1, a.len() as int))
            + spec_encode_prompts(b)) =~= (spec_encode_prompt(a[0]) + spec_encode_prompts(
            a.subrange(1, a.len() as int),
        )) + spec_encode_prompts(b));
    }
}

proof fn lemma_encode_prompts_snoc(ps: Seq<PromptMessageV>, i: int)
    requires
        0 <= i < ps.len(),
    ensures
        spec_encode_prompts(ps.subrange(0, i + 1)) == spec_encode_prompts(ps.subrange(0, i))
            + spec_encode_prompt(ps[i]),
{
    assert(ps.subrange(0, i + 1) =~= ps.subrange(0, i) + seq![ps[i]]);
    lemma_encode_prompts_concat(ps.subrange(0, i), seq![ps[i]]);
    assert(seq![ps[i]].subrange(1, 1) =~= Seq::<PromptMessageV>::empty());
    assert(spec_encode_prompts(seq![ps[i]]) == spec_encode_prompt(ps[i])
        + spec_encode_prompts(Seq::<PromptMessageV>::empty()));
    assert(spec_encode_prompt(ps[i]) + Seq::<char>::empty() =~= spec_encode_prompt(ps[i]));
    assert(spec_encode_prompts(ps.subrange(0, i)) + (spec_encode_prompt(ps[i])
        + Seq::<char>::empty()) =~= spec_encode_prompts(ps.subrange(0, i)) + spec_encode_prompt(
        ps[i],
    ));
}

fn encode_prompt_into(out: &mut String, p: &PromptMessage)
    ensures
        final(out)@ == old(out)@ + spec_encode_prompt(p@),
        p@.content.len() <= u64::MAX,
{
    let c: char = match p.role {
        PromptRole::System => 's',
        PromptRole::User => 'u',
        PromptRole::Assistant => 'a',
    };
    push_char(out, c);
    let clen = p.content.as_str().unicode_len();
    assert(clen as u64 as nat == p@.content.len());
    push_hex16(out, clen as u64);
    out.append(p.content.as_str());
    assert(out@ =~= old(out)@ + spec_encode_prompt(p@));
}

/// Writes a job in the wire format; the result means exactly that job.
pub fn encode(job: &QueuedCompletionJob) -> (r: String)
    ensures
        r@ == spec_encode(job@),
        spec_decode(r@) == Some(job@),
{
    let mut out = String::new();
    push_char(&mut out, 'J');
    let idlen = job.job_id.as_str().unicode_len();
    push_hex16(&mut out, idlen as u64);
    out.append(job.job_id.as_str());
    push_char(&mut out, 'P');
    let n = job.prompts.len();
    push_hex16(&mut out, n as u64);
    let ghost header = seq!['J'] + hex_seq(job.job_id@.len(), 16) + job.job_id@ + seq!['P']
        + hex_seq(job@.prompts.len(), 16);
    assert(out@ =~= header + spec_encode_prompts(prompts_view(job.prompts@).subrange(0, 0)));
    let mut i: usize = 0;
    while i < n
        invariant
            n == job.prompts@.len(),
            0 <= i <= n,
            out@ == header + spec_encode_prompts(prompts_view(job.prompts@).subrange(0, i as int)),
            forall|k: int|
                0 <= k < i ==> (#[trigger] prompts_view(job.prompts@)[k]).content.len()
                    <= u64::MAX,
        decreases n - i,
    {
        encode_prompt_into(&mut out, &job.prompts[i]);
        proof {
            lemma_encode_prompts_snoc(prompts_view(job.prompts@), i as int);
        }
        i += 1;
    }
    assert(prompts_view(job.prompts@).subrange(0, n as int) =~= prompts_view(job.prompts@));
    assert(out@ =~= spec_encode(job@));
    proof {
        lemma_pow16_16();
        assert(job.job_id@.len() == idlen as u64 as nat);
        assert(job@.prompts.len() == n as u64 as nat);
        assert(encodable_job(job@));
        lemma_decode_encode(job@);
    }
    out
}

proof fn lemma_parse_hex_single(c: char, m: nat)
    ensures
        parse_hex_acc(seq![c], m) == if is_hex_digit_char(c) {
            Some((m * 16 + crate::numerals::hex_digit_val(c)) as nat)
        } else {
            None::<nat>
        },
{
    reveal_with_fuel(parse_hex_acc, 3);
    assert(seq![c].subrange(1, 1) =~= Seq::<char>::empty());
    assert(seq![c][0] == c);
}

/// A prompt section written by the encoder parses back to the prompts it was
/// written from.
proof fn lemma_decode_encode_prompts(ps: Seq<PromptMessageV>)
    requires
        forall|i: int| 0 <= i < ps.len() ==> encodable_prompt(#[trigger] ps[i]),
    ensures
        spec_decode_prompts(spec_encode_prompts(ps), ps.len()) == Some(ps),
    decreases ps.len(),
{
    if ps.len() == 0 {
        assert(spec_encode_prompts(ps).len() == 0);
        assert(spec_decode_prompts(spec_encode_prompts(ps), 0) == Some(Seq::<PromptMessageV>::empty()));
        assert(ps =~= Seq::<PromptMessageV>::empty());
    } else {
        let p = ps[0];
        let tail = ps.subrange(1, ps.len() as int);
        let rc = role_char(p.role);
        let h = hex_seq(p.content.len(), 16);
        let rest = spec_encode_prompts(tail);
        let s = spec_encode_prompts(ps);
        lemma_hex_seq_len(p.content.len(), 16);
        assert(s =~= seq![rc] + h + p.content + rest);
        assert(s.len() == 17 + p.content.len() + rest.len());
        assert(s[0] == rc);
        assert(role_of_char(rc) == Some(p.role));
        assert(s.subrange(1, 17) =~= h);
        lemma_hex_seq_parse(p.content.len(), 16, 0);
        assert(parse_hex(h) == Some(p.content.len()));
        assert(s.subrange(17, 17 + p.content.len() as int) =~= p.content);
        assert(s.subrange(17 + p.content.len() as int, s.len() as int) =~= rest);
        lemma_decode_encode_prompts(tail);
        assert(spec_decode_prompts(rest, tail.len()) == Some(tail));
        assert(spec_decode_prompts(s, ps.len()) == Some(
            seq![PromptMessageV { role: p.role, content: p.content }] + tail,
        ));
        assert(PromptMessageV { role: p.role, content: p.content } == p);
        assert(seq![p] + tail =~= ps);
    }
}

/// The round-trip law of the job codec: decoding what `spec_encode` writes
/// yields the job unchanged, for every job whose lengths fit the format.
pub proof fn lemma_decode_encode(j: QueuedJobV)
    requires
        encodable_job(j),
    ensures
        spec_decode(spec_encode(j)) == Some(j),
{
    let idl = j.job_id.len();
    let np = j.prompts.len();
    let h1 = hex_seq(idl, 16);
    let h2 = hex_seq(np, 16);
    let r = spec_encode_prompts(j.prompts);
    let s = spec_encode(j);
    lemma_hex_seq_len(idl, 16);
    lemma_hex_seq_len(np, 16);
    assert(s =~= seq!['J'] + h1 + j.job_id + seq!['P'] + h2 + r);
    assert(s.len() == 34 + idl + r.len());
    assert(s[0] == 'J');
    assert(s.subrange(1, 17) =~= h1);
    lemma_hex_seq_parse(idl, 16, 0);
    assert(parse_hex(h1) == Some(idl));
    assert(s.subrange(17, 17 + idl as int) =~= j.job_id);
    assert(s[17 + idl as int] == 'P');
    assert(s.subrange(18 + idl as int, 34 + idl as int) =~= h2);
    lemma_hex_seq_parse(np, 16, 0);
    assert(parse_hex(h2) == Some(np));
    assert(s.subrange(34 + idl as int, s.len() as int) =~= r);
    lemma_decode_encode_prompts(j.prompts);
    assert(spec_decode(s) == Some(QueuedJobV { job_id: j.job_id, prompts: j.prompts }));
    assert(QueuedJobV { job_id: j.job_id, prompts: j.prompts } == j);
}

/// Reads the fixed 16-digit hexadecimal field at `pos`.
fn parse_hex16_at(s: &str, pos: usize) -> (r: Option<u64>)
    requires
        pos + 16 <= s@.len(),
        pos <= usize::MAX - 16,
    ensures
        match r {
            Some(v) => parse_hex(s@.subrange(pos as int, pos as int + 16)) == Some(v as nat),
            None => parse_hex(s@.subrange(pos as int, pos as int + 16)) == None::<nat>,
        },
{
    let ghost field = s@.subrange(pos as int, pos as int + 16);
    let mut acc: u64 = 0;
    let mut j: usize = 0;
    while j < 16
        invariant
            0 <= j <= 16,
            pos + 16 <= s@.len(),
            pos <= usize::MAX - 16,
            field == s@.subrange(pos as int, pos as int + 16),
            parse_hex_acc(field.subrange(0, j as int), 0) == Some(acc as nat),
            acc < pow16(j as nat),
        decreases 16 - j,
    {
        let c = s.get_char(pos + j);
        assert(c == field[j as int]);
        match crate::numerals::hex_digit_value(c) {
            None => {
                proof {
                    assert(field =~= field.subrange(0, j as int) + field.subrange(j as int, 16));
                    lemma_parse_hex_concat(field.subrange(0, j as int), field.subrange(j as int, 16), 0);
                    assert(field.subrange(j as int, 16)[0] == c);
                }
                return None;
            },
            Some(v) => {
                proof {
                    lemma_pow16_16();
                    crate::numerals::lemma_pow16_le(j as nat, 15);
                    assert(acc * 16 + v < pow16((j + 1) as nat)) by (nonlinear_arith)
                        requires
                            acc < pow16(j as nat),
                            v < 16,
                            pow16((j + 1) as nat) == 16 * pow16(j as nat),
                    ;
                    assert(pow16((j + 1) as nat) <= pow16(16)) by {
                        crate::numerals::lemma_pow16_le((j + 1) as nat, 16);
                    }
                    assert(field.subrange(0, j + 1) =~= field.subrange(0, j as int) + seq![c]);
                    lemma_parse_hex_concat(field.subrange(0, j as int), seq![c], 0);
                    lemma_parse_hex_single(c, acc as nat);
                }
                acc = acc * 16 + (v as u64);
            },
        }
        j += 1;
    }
    assert(field.subrange(0, 16) =~= field);
    Some(acc)
}

/// Reads a job back from wire text; fails exactly on text that no job means.
#[verifier::loop_isolation(false)]
pub fn decode(s: &str) -> (r: Result<QueuedCompletionJob, DecodeError>)
    ensures
        match r {
            Ok(job) => spec_decode(s@) == Some(job@),
            Err(_) => spec_decode(s@) == None::<QueuedJobV>,
        },
{
    let total = s.unicode_len();
    if total < 17 {
        return Err(DecodeError);
    }
    if s.get_char(0) != 'J' {
        return Err(DecodeError);
    }
    let idlen64 = match parse_hex16_at(s, 1) {
        Some(v) => v,
        None => {
            return Err(DecodeError);
        },
    };
    if (total as u128) < 34 + (idlen64 as u128) {
        return Err(DecodeError);
    }
    let idlen = idlen64 as usize;
    assert(idlen as nat == idlen64 as nat);
    let job_id = s.substring_char(17, 17 + idlen).to_owned();
    if s.get_char(17 + idlen) != 'P' {
        return Err(DecodeError);
    }
    let pcount = match parse_hex16_at(s, 18 + idlen) {
        Some(v) => v,
        None => {
            return Err(DecodeError);
        },
    };
    let ghost tail0 = s@.subrange(34 + idlen as int, total as int);
    let mut prompts: Vec<PromptMessage> = Vec::new();
    let mut pos: usize = 34 + idlen;
    let mut remaining: u64 = pcount;
    while remaining > 0
        invariant
            34 + idlen <= pos <= total,
            match spec_decode_prompts(s@.subrange(pos as int, total as int), remaining as nat) {
                Some(ps) => spec_decode_prompts(tail0, pcount as nat) == Some(
                    prompts_view(prompts@) + ps,
                ),
                None => spec_decode_prompts(tail0, pcount as nat) == None::<Seq<PromptMessageV>>,
            },
        decreases remaining,
    {
        let ghost cur = s@.subrange(pos as int, total as int);
        let rem_len = total - pos;
        if rem_len < 17 {
            return Err(DecodeError);
        }
        let rc = s.get_char(pos);
        assert(rc == cur[0]);
        let role = match rc {
            's' => PromptRole::System,
            'u' => PromptRole::User,
            'a' => PromptRole::Assistant,
            _ => {
                return Err(DecodeError);
            },
        };
        assert(role_of_char(cur[0]) == Some(role));
        let clen64 = match parse_hex16_at(s, pos + 1) {
            Some(v) => v,
            None => {
                proof {
                    assert(cur.subrange(1, 17) =~= s@.subrange(pos + 1, pos + 17));
                }
                return Err(DecodeError);
            },
        };
        proof {
            assert(cur.subrange(1, 17) =~= s@.subrange(pos + 1, pos + 17));
        }
        if clen64 > (rem_len - 17) as u64 {
            return Err(DecodeError);
        }
        let clen = clen64 as usize;
        let content = s.substring_char(pos + 17, pos + 17 + clen).to_owned();
        proof {
            assert(cur.subrange(17, 17 + clen as int) =~= s@.subrange(
                pos + 17,
                pos + 17 + clen as int,
            ));
            assert(cur.subrange(17 + clen as int, cur.len() as int) =~= s@.subrange(
                pos + 17 + clen as int,
                total as int,
            ));
        }
        let ghost old_prompts = prompts_view(prompts@);
        let p = PromptMessage { role, content };
        assert(p@ == (PromptMessageV { role, content: cur.subrange(17, 17 + clen as int) }));
        prompts.push(p);
        proof {
            assert(prompts_view(prompts@) =~= old_prompts + seq![p@]);
            let rest = cur.subrange(17 + clen as int, cur.len() as int);
            match spec_decode_prompts(rest, (remaining - 1) as nat) {
                Some(ps) => {
                    assert(spec_decode_prompts(cur, remaining as nat) == Some(seq![p@] + ps));
                    assert(old_prompts + (seq![p@] + ps) =~= (old_prompts + seq![p@]) + ps);
                },
                None => {
                    assert(spec_decode_prompts(cur, remaining as nat)
                        == None::<Seq<PromptMessageV>>);
                },
            }
        }
        pos = pos + 17 + clen;
        remaining = remaining - 1;
    }
    if pos != total {
        assert(s@.subrange(pos as int, total as int).len() > 0);
        return Err(DecodeError);
    }
    assert(s@.subrange(pos as int, total as int).len() == 0);
    assert(prompts_view(prompts@) + Seq::<PromptMessageV>::empty() =~= prompts_view(prompts@));
    let job = QueuedCompletionJob { job_id, prompts };
    assert(spec_decode(s@) == Some(job@));
    Ok(job)
}

} // verus!
