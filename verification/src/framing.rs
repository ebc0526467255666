//! Response framing and telegram parsing of the serial link.
//!
//! The device terminates every reply with a fixed byte sequence. The worker
//! accumulates raw reads in a bounded buffer, and once the terminator has
//! been observed splits the accumulated bytes into frames on every
//! terminator occurrence, dropping empty segments. Unsolicited button
//! telegrams are four-byte frames `km.<status>` with the status byte below
//! 32.

use vstd::prelude::*;

use vstd::slice::slice_to_vec;

verus! {

/// The accumulation buffer is discarded and reset when it grows past this
/// bound without a terminator, so a device stuck emitting a non-terminated
/// stream cannot grow it without bound.
pub const MAX_BUFFER_SIZE: usize = 4096;

/// The fixed framing terminator `\r\n>>> ` that ends every device reply.
pub open spec fn terminator() -> Seq<u8> {
    seq![13u8, 10u8, 62u8, 62u8, 62u8, 32u8]
}

/// Whether the terminator stands in `b` at position `i`.
pub open spec fn term_at(b: Seq<u8>, i: int) -> bool {
    0 <= i && i + 6 <= b.len() && b.subrange(i, i + 6) == terminator()
}

/// The position of the first terminator occurrence at or after `from`, or -1
/// when there is none.
pub open spec fn find_term(b: Seq<u8>, from: int) -> int
    recommends
        0 <= from <= b.len(),
    decreases b.len() - from,
{
    if from < 0 || from + 6 > b.len() {
        -1
    } else if b.subrange(from, from + 6) == terminator() {
        from
    } else {
        find_term(b, from + 1)
    }
}

/// What `find_term` finds is the first occurrence.
pub proof fn lemma_find_term(b: Seq<u8>, from: int)
    requires
        0 <= from <= b.len(),
    ensures
        find_term(b, from) == -1 || find_term(b, from) >= from,
        find_term(b, from) == -1 ==> forall|j: int| from <= j ==> !term_at(b, j),
        find_term(b, from) >= 0 ==> {
            &&& from <= find_term(b, from)
            &&& term_at(b, find_term(b, from))
            &&& forall|j: int| from <= j < find_term(b, from) ==> !term_at(b, j)
        },
    decreases b.len() - from,
{
    if from + 6 > b.len() {
        assert(forall|j: int| from <= j ==> !term_at(b, j));
    } else if b.subrange(from, from + 6) == terminator() {
    } else {
        lemma_find_term(b, from + 1);
    }
}

/// The frames of an accumulated byte sequence: the segments between
/// terminator occurrences, with empty segments dropped, and a trailing
/// non-terminated remainder kept as its own segment.
pub open spec fn spec_split_frames(b: Seq<u8>) -> Seq<Seq<u8>>
    decreases b.len(),
{
    let i = find_term(b, 0);
    if i < 0 || i + 6 > b.len() {
        if b.len() == 0 {
            Seq::empty()
        } else {
            seq![b]
        }
    } else {
        let rest = spec_split_frames(b.subrange(i + 6, b.len() as int));
        if i == 0 {
            rest
        } else {
            seq![b.subrange(0, i)] + rest
        }
    }
}

/// Scans for the first terminator occurrence at or after `from`.
fn scan_term(buf: &[u8], from: usize) -> (r: Option<usize>)
    requires
        from <= buf@.len(),
    ensures
        match r {
            Some(i) => from <= i && find_term(buf@, from as int) == i,
            None => find_term(buf@, from as int) == -1,
        },
{
    let n = buf.len();
    let mut j = from;
    while n - j >= 6
        invariant
            from <= j,
            j <= n,
            n == buf@.len(),
            find_term(buf@, from as int) == find_term(buf@, j as int),
        decreases n - j,
    {
        if buf[j] == 13 && buf[j + 1] == 10 && buf[j + 2] == 62 && buf[j + 3] == 62 && buf[j + 4]
            == 62 && buf[j + 5] == 32 {
            proof {
                assert(buf@.subrange(j as int, j + 6) =~= terminator());
            }
            return Some(j);
        }
        proof {
            let s = buf@.subrange(j as int, j + 6);
            if s == terminator() {
                assert(s[0] == 13 && s[1] == 10 && s[2] == 62 && s[3] == 62 && s[4] == 62 && s[5]
                    == 32);
                assert(false);
            }
        }
        j += 1;
    }
    None
}

/// Splits accumulated bytes into frames on every terminator occurrence,
/// dropping empty segments; a trailing non-terminated remainder is returned
/// as its own (possibly incomplete) frame.
pub fn split_frames(buf: &[u8]) -> (frames: Vec<Vec<u8>>)
    ensures
        frames@.map_values(|f: Vec<u8>| f@) == spec_split_frames(buf@),
{
    let n = buf.len();
    let mut frames: Vec<Vec<u8>> = Vec::new();
    let mut pos: usize = 0;
    proof {
        assert(buf@.subrange(0, n as int) =~= buf@);
        assert(frames@.map_values(|f: Vec<u8>| f@) + spec_split_frames(buf@) =~= spec_split_frames(
            buf@,
        ));
    }
    loop
        invariant
            pos <= n,
            n == buf@.len(),
            spec_split_frames(buf@) == frames@.map_values(|f: Vec<u8>| f@) + spec_split_frames(
                buf@.subrange(pos as int, n as int),
            ),
        decreases n - pos,
    {
        let ghost sub = buf@.subrange(pos as int, n as int);
        match scan_term(buf, pos) {
            Some(i) => {
                proof {
                    lemma_find_term(buf@, pos as int);
                    lemma_scan_in_subrange(buf@, pos as int, i as int);
                }
                if i > pos {
                    let head: Vec<u8> = slice_to_vec(&buf[pos..i]);
                    frames.push(head);
                    proof {
                        assert(frames@.map_values(|f: Vec<u8>| f@) =~= frames@.drop_last()
                            .map_values(|f: Vec<u8>| f@).push(buf@.subrange(pos as int, i as int)));
                        assert(sub.subrange(0, i - pos) =~= buf@.subrange(pos as int, i as int));
                        assert(sub.subrange(i - pos + 6, sub.len() as int) =~= buf@.subrange(
                            i + 6,
                            n as int,
                        ));
                        assert(spec_split_frames(sub) == seq![sub.subrange(0, i - pos)]
                            + spec_split_frames(sub.subrange(i - pos + 6, sub.len() as int)));
                        assert(frames@.map_values(|f: Vec<u8>| f@) + spec_split_frames(
                            buf@.subrange(i + 6, n as int),
                        ) =~= frames@.drop_last().map_values(|f: Vec<u8>| f@) + spec_split_frames(
                            sub,
                        ));
                    }
                } else {
                    proof {
                        assert(sub.subrange(i - pos + 6, sub.len() as int) =~= buf@.subrange(
                            i + 6,
                            n as int,
                        ));
                        assert(spec_split_frames(sub) == spec_split_frames(
                            buf@.subrange(i + 6, n as int),
                        ));
                    }
                }
                pos = i + 6;
            },
            None => {
                proof {
                    lemma_scan_none_in_subrange(buf@, pos as int);
                }
                if pos < n {
                    let tail: Vec<u8> = slice_to_vec(&buf[pos..n]);
                    frames.push(tail);
                    proof {
                        assert(frames@.map_values(|f: Vec<u8>| f@) =~= frames@.drop_last()
                            .map_values(|f: Vec<u8>| f@).push(sub));
                        assert(spec_split_frames(sub) =~= seq![sub]);
                    }
                } else {
                    proof {
                        assert(sub =~= Seq::<u8>::empty());
                    }
                }
                proof {
                    assert(spec_split_frames(buf@) =~= frames@.map_values(|f: Vec<u8>| f@));
                }
                return frames;
            },
        }
    }
}

/// Relates a terminator search in the whole buffer to one in its tail: when
/// the first occurrence at or after `pos` is at `i`, the tail starting at
/// `pos` has its first occurrence at `i - pos`.
proof fn lemma_scan_in_subrange(b: Seq<u8>, pos: int, i: int)
    requires
        0 <= pos <= b.len(),
        pos <= i,
        find_term(b, pos) == i,
    ensures
        find_term(b.subrange(pos, b.len() as int), 0) == i - pos,
{
    let sub = b.subrange(pos, b.len() as int);
    lemma_find_term(b, pos);
    assert(b.subrange(i, i + 6) == terminator());
    assert(sub.subrange(i - pos, i - pos + 6) =~= b.subrange(i, i + 6));
    assert(term_at(sub, i - pos));
    assert forall|j: int| 0 <= j < i - pos implies !term_at(sub, j) by {
        if term_at(sub, j) {
            assert(sub.subrange(j, j + 6) =~= b.subrange(pos + j, pos + j + 6));
            assert(term_at(b, pos + j));
        }
    }
    lemma_find_term(sub, 0);
    let k = find_term(sub, 0);
    if k == -1 {
        assert(!term_at(sub, i - pos));
    } else {
        if k < i - pos {
            assert(!term_at(sub, k));
        }
        if k > i - pos {
            assert(!term_at(sub, i - pos));
        }
    }
}

/// When the whole buffer has no terminator at or after `pos`, the tail
/// starting at `pos` has none at all.
proof fn lemma_scan_none_in_subrange(b: Seq<u8>, pos: int)
    requires
        0 <= pos <= b.len(),
        find_term(b, pos) == -1,
    ensures
        find_term(b.subrange(pos, b.len() as int), 0) == -1,
{
    let sub = b.subrange(pos, b.len() as int);
    lemma_find_term(b, pos);
    assert forall|j: int| 0 <= j implies !term_at(sub, j) by {
        if term_at(sub, j) {
            assert(sub.subrange(j, j + 6) =~= b.subrange(pos + j, pos + j + 6));
            assert(term_at(b, pos + j));
        }
    }
    lemma_find_term(sub, 0);
    let k = find_term(sub, 0);
    if k >= 0 {
        assert(!term_at(sub, k));
    }
}

/// Whether an accumulated byte sequence ends with the framing terminator,
/// which is what makes a reply complete.
pub open spec fn ends_with_terminator(b: Seq<u8>) -> bool {
    b.len() >= 6 && b.subrange(b.len() - 6, b.len() as int) == terminator()
}

/// The bounded accumulation buffer of the serial worker: raw reads are
/// appended until a reply is complete, and the whole buffer is discarded
/// when it outgrows its bound without a terminator.
pub struct ReadBuffer {
    buf: Vec<u8>,
}

impl View for ReadBuffer {
    type V = Seq<u8>;

    closed spec fn view(&self) -> Seq<u8> {
        self.buf@
    }
}

/// What one appended read leaves in the buffer: the concatenation, unless it
/// outgrows the bound, in which case the buffer is discarded and reset.
pub open spec fn spec_push_chunk(b: Seq<u8>, chunk: Seq<u8>) -> Seq<u8> {
    if b.len() + chunk.len() > MAX_BUFFER_SIZE {
        Seq::empty()
    } else {
        b + chunk
    }
}

impl ReadBuffer {
    /// The buffer never holds more than its bound.
    pub open spec fn wf(&self) -> bool {
        self@.len() <= MAX_BUFFER_SIZE
    }

    /// Creates an empty accumulation buffer.
    pub fn new() -> (r: ReadBuffer)
        ensures
            r@ == Seq::<u8>::empty(),
            r.wf(),
    {
        ReadBuffer { buf: Vec::new() }
    }

    /// Appends one raw read; when the buffer outgrows its bound without a
    /// terminator it is discarded and reset rather than grown without bound.
    pub fn push_chunk(&mut self, chunk: &[u8])
        requires
            old(self).wf(),
        ensures
            final(self)@ == spec_push_chunk(old(self)@, chunk@),
            final(self).wf(),
    {
        self.buf.extend_from_slice(chunk);
        if self.buf.len() > MAX_BUFFER_SIZE {
            self.buf.clear();
        }
    }

    /// Whether the accumulated bytes end with the framing terminator.
    pub fn is_complete(&self) -> (r: bool)
        ensures
            r == ends_with_terminator(self@),
    {
        let n = self.buf.len();
        if n < 6 {
            false
        } else {
            let r = self.buf[n - 6] == 13 && self.buf[n - 5] == 10 && self.buf[n - 4] == 62
                && self.buf[n - 3] == 62 && self.buf[n - 2] == 62 && self.buf[n - 1] == 32;
            proof {
                let s = self@.subrange(n - 6, n as int);
                if r {
                    assert(s =~= terminator());
                } else if s == terminator() {
                    assert(s[0] == 13 && s[1] == 10 && s[2] == 62 && s[3] == 62 && s[4] == 62
                        && s[5] == 32);
                    assert(false);
                }
            }
            r
        }
    }

    /// Hands the accumulated bytes out and resets the buffer.
    pub fn take(&mut self) -> (r: Vec<u8>)
        ensures
            r@ == old(self)@,
            final(self)@ == Seq::<u8>::empty(),
            final(self).wf(),
    {
        let mut out: Vec<u8> = Vec::new();
        core::mem::swap(&mut out, &mut self.buf);
        out
    }
}

/// The status byte of an unsolicited button telegram, when the frame is one:
/// exactly four bytes `km.<status>` with the status byte below 32.
pub open spec fn spec_parse_telegram(frame: Seq<u8>) -> Option<u8> {
    if frame.len() == 4 && frame[0] == 107 && frame[1] == 109 && frame[2] == 46 && frame[3] < 32 {
        Some(frame[3])
    } else {
        None
    }
}

/// Extracts the status byte of an unsolicited button telegram, when the
/// frame is one.
pub fn parse_telegram(frame: &[u8]) -> (r: Option<u8>)
    ensures
        r == spec_parse_telegram(frame@),
{
    if frame.len() == 4 && frame[0] == 107 && frame[1] == 109 && frame[2] == 46 && frame[3] < 32 {
        Some(frame[3])
    } else {
        None
    }
}

} // verus!
