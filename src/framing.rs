//! Newline framing of packets on a byte stream, and the packet ID that
//! some peers send as a decimal string.
use vstd::prelude::*;
use crate::text::{decimal_text, lemma_decimal_text_value, parse_u128, parsed_u128, unsigned_digits};

verus! {

/// The line terminator.
pub const NEWLINE: u8 = 10;

pub open spec fn no_newline(s: Seq<u8>) -> bool {
    forall|i: int| 0 <= i < s.len() ==> s[i] != 10
}

/// The bytes of a sequence of frames, each followed by a newline.
pub open spec fn join_frames(f: Seq<Seq<u8>>) -> Seq<u8>
    decreases f.len(),
{
    if f.len() == 0 {
        seq![]
    } else {
        join_frames(f.drop_last()) + f.last() + seq![10u8]
    }
}

pub open spec fn all_frames_clean(f: Seq<Seq<u8>>) -> bool {
    forall|i: int| 0 <= i < f.len() ==> no_newline(#[trigger] f[i])
}

/// One packet's bytes as a line; `None` when they hold a newline, which the
/// framing could not carry.
pub fn frame_line(text: &[u8]) -> (r: Option<Vec<u8>>)
    ensures
        no_newline(text@) ==> (r matches Some(v) && v@ == text@.push(10)),
        !no_newline(text@) ==> r is None,
{
    let mut out: Vec<u8> = Vec::new();
    let mut i: usize = 0;
    while i < text.len()
        invariant
            i <= text@.len(),
            out@ == text@.subrange(0, i as int),
            no_newline(out@),
        decreases text@.len() - i,
    {
        if text[i] == NEWLINE {
            return None;
        }
        out.push(text[i]);
        i = i + 1;
    }
    assert(out@ == text@);
    out.push(NEWLINE);
    Some(out)
}

/// Splits a byte stream into lines as it arrives.
pub struct LineReader {
    pending: Vec<u8>,
}

impl LineReader {
    /// Bytes received after the last newline.
    pub closed spec fn pending(&self) -> Seq<u8> {
        self.pending@
    }

    pub open spec fn wf(&self) -> bool {
        no_newline(self.pending())
    }

    /// A reader that has seen nothing.
    pub fn new() -> (r: LineReader)
        ensures
            r.wf(),
            r.pending().len() == 0,
    {
        LineReader { pending: Vec::new() }
    }

    /// Takes in received bytes and returns the lines they complete, without
    /// their newlines, in order.
    pub fn feed(&mut self, data: &[u8]) -> (lines: Vec<Vec<u8>>)
        requires
            old(self).wf(),
        ensures
            final(self).wf(),
            all_frames_clean(lines@.map_values(|l: Vec<u8>| l@)),
            join_frames(lines@.map_values(|l: Vec<u8>| l@)) + final(self).pending() == old(
                self,
            ).pending() + data@,
    {
        let mut lines: Vec<Vec<u8>> = Vec::new();
        let mut cur: Vec<u8> = Vec::new();
        std::mem::swap(&mut cur, &mut self.pending);
        let ghost start = cur@;
        let mut i: usize = 0;
        while i < data.len()
            invariant
                i <= data@.len(),
                no_newline(cur@),
                all_frames_clean(lines@.map_values(|l: Vec<u8>| l@)),
                join_frames(lines@.map_values(|l: Vec<u8>| l@)) + cur@ == start + data@.subrange(
                    0,
                    i as int,
                ),
            decreases data@.len() - i,
        {
            let ghost before = lines@.map_values(|l: Vec<u8>| l@);
            let ghost cur0 = cur@;
            assert(data@.subrange(0, i + 1) == data@.subrange(0, i as int).push(data@[i as int]));
            if data[i] == NEWLINE {
                let mut line: Vec<u8> = Vec::new();
                std::mem::swap(&mut line, &mut cur);
                let ghost l = line@;
                lines.push(line);
                let ghost after = lines@.map_values(|l: Vec<u8>| l@);
                assert(after.drop_last() == before);
                assert(after.last() == l);
                assert(join_frames(after) == join_frames(before) + l + seq![10u8]);
                assert(join_frames(after) + cur@ =~= (join_frames(before) + cur0).push(10u8));
                assert(all_frames_clean(after)) by {
                    assert forall|k: int| 0 <= k < after.len() implies no_newline(
                        #[trigger] after[k],
                    ) by {
                        if k < before.len() {
                            assert(after[k] == before[k]);
                        }
                    }
                }
            } else {
                cur.push(data[i]);
                assert(join_frames(before) + cur@ =~= (join_frames(before) + cur0).push(data@[i as int]));
                assert(no_newline(cur@)) by {
                    assert forall|k: int| 0 <= k < cur@.len() implies cur@[k] != 10 by {
                        if k < cur0.len() {
                            assert(cur@[k] == cur0[k]);
                        }
                    }
                }
            }
            i = i + 1;
        }
        assert(data@.subrange(0, data@.len() as int) == data@);
        self.pending = cur;
        lines
    }
}

/// A newline-free tail after a prefix that is empty or ends in a newline is
/// determined by the whole.
proof fn lemma_last_line_unique(a: Seq<u8>, x: Seq<u8>, b: Seq<u8>, y: Seq<u8>)
    requires
        a.len() == 0 || a.last() == 10,
        b.len() == 0 || b.last() == 10,
        no_newline(x),
        no_newline(y),
        a + x == b + y,
    ensures
        a == b,
        x == y,
{
    let w = a + x;
    assert(w.len() == a.len() + x.len());
    assert((b + y).len() == b.len() + y.len());
    assert(w =~= b + y);
    if a.len() < b.len() {
        assert(w[b.len() - 1] == 10);
        assert((a + x)[b.len() - 1] == x[b.len() - 1 - a.len()]);
        assert(x[b.len() - 1 - a.len()] != 10);
        assert((b + y)[b.len() - 1] == b[b.len() - 1]);
    } else if b.len() < a.len() {
        assert(w[a.len() - 1] == 10);
        assert((b + y)[a.len() - 1] == w[a.len() - 1]);
        assert((b + y)[a.len() - 1] == y[a.len() - 1 - b.len()]);
        assert(y[a.len() - 1 - b.len()] != 10);
    }
    assert(a == w.subrange(0, a.len() as int));
    assert(b == w.subrange(0, b.len() as int));
    assert(x == w.subrange(a.len() as int, w.len() as int));
    assert(y == w.subrange(b.len() as int, w.len() as int));
}

proof fn lemma_join_ends_in_newline(f: Seq<Seq<u8>>)
    ensures
        join_frames(f).len() == 0 || join_frames(f).last() == 10,
        f.len() > 0 ==> join_frames(f).len() > 0,
{
}

/// Framing is prefix-free: bytes made of newline-terminated frames split back
/// into exactly those frames, with nothing pending.
pub proof fn lemma_frames_split_back(frames: Seq<Seq<u8>>, lines: Seq<Seq<u8>>, rest: Seq<u8>)
    requires
        all_frames_clean(frames),
        all_frames_clean(lines),
        no_newline(rest),
        join_frames(lines) + rest == join_frames(frames),
    ensures
        lines == frames,
        rest.len() == 0,
    decreases frames.len(),
{
    lemma_join_ends_in_newline(frames);
    lemma_join_ends_in_newline(lines);
    if rest.len() > 0 {
        let w = join_frames(frames);
        assert(w.last() == 10);
        assert(w.last() == rest.last());
    }
    assert(rest =~= seq![]);
    assert(join_frames(lines) == join_frames(frames)) by {
        assert(join_frames(lines) + rest =~= join_frames(lines));
    }
    if frames.len() == 0 {
        if lines.len() > 0 {
            assert(join_frames(lines).len() > 0);
        }
        assert(lines =~= frames);
    } else {
        if lines.len() == 0 {
            assert(join_frames(frames).len() > 0);
        }
        let fl = frames.drop_last();
        let ll = lines.drop_last();
        let jf = join_frames(fl) + frames.last();
        let jl = join_frames(ll) + lines.last();
        assert(jf + seq![10u8] == jl + seq![10u8]);
        assert(jf == (jf + seq![10u8]).drop_last());
        assert(jl == (jl + seq![10u8]).drop_last());
        lemma_join_ends_in_newline(fl);
        lemma_join_ends_in_newline(ll);
        assert(no_newline(frames[frames.len() - 1]));
        assert(no_newline(lines[lines.len() - 1]));
        lemma_last_line_unique(join_frames(ll), lines.last(), join_frames(fl), frames.last());
        assert(all_frames_clean(fl)) by {
            assert forall|k: int| 0 <= k < fl.len() implies no_newline(#[trigger] fl[k]) by {
                assert(fl[k] == frames[k]);
            }
        }
        assert(all_frames_clean(ll)) by {
            assert forall|k: int| 0 <= k < ll.len() implies no_newline(#[trigger] ll[k]) by {
                assert(ll[k] == lines[k]);
            }
        }
        assert(join_frames(ll) + seq![] =~= join_frames(ll));
        lemma_frames_split_back(fl, ll, seq![]);
        assert(lines =~= ll.push(lines.last()));
        assert(frames =~= fl.push(frames.last()));
    }
}

/// A packet ID as it arrives: an integer, or a decimal string from peers that
/// send it that way.
pub enum PacketId {
    Number(u128),
    Text(String),
}

pub open spec fn packet_id_value(id: PacketId) -> Option<u128> {
    match id {
        PacketId::Number(n) => Some(n),
        PacketId::Text(t) => parsed_u128(t@),
    }
}

/// The numeric ID; `None` when a string ID is not a decimal `u128`.
pub fn resolve_packet_id(id: &PacketId) -> (r: Option<u128>)
    ensures
        r == packet_id_value(*id),
{
    match id {
        PacketId::Number(n) => Some(*n),
        PacketId::Text(t) => parse_u128(t.as_str()),
    }
}

/// An ID sent as the decimal string of `n` resolves to the same value as the
/// integer `n`.
pub proof fn lemma_string_id_matches_number(n: u128, text: String)
    requires
        text@ == decimal_text(n as nat),
    ensures
        packet_id_value(PacketId::Text(text)) == packet_id_value(PacketId::Number(n)),
{
    lemma_decimal_text_value(n as nat);
    assert(unsigned_digits(text@) == text@);
}

} // verus!
