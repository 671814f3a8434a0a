use vstd::prelude::*;

verus! {

/// The byte that ends every frame.
pub const NEWLINE: u8 = 10;

/// No byte of `s` is a newline.
pub open spec fn newline_free(s: Seq<u8>) -> bool {
    forall|i: int| 0 <= i < s.len() ==> s[i] != NEWLINE
}

/// The first `n` bytes of `buf` form one complete frame: they end in a
/// newline and hold no other.
pub open spec fn is_frame_prefix(buf: Seq<u8>, n: int) -> bool {
    &&& 0 < n <= buf.len()
    &&& buf[n - 1] == NEWLINE
    &&& newline_free(buf.take(n - 1))
}

/// The bytes that a line `line` (without its delimiter) puts on the wire.
pub open spec fn encode_line(line: Seq<u8>) -> Seq<u8> {
    line.push(NEWLINE)
}

/// Bytes received from a stream, cut into newline-terminated frames.
///
/// Bytes are handed in as they arrive, in any chunking; frames come out
/// whole, in order, each with its delimiter. When the stream has ended,
/// the unterminated tail (if any) comes out once, and after that an empty
/// frame marks the closed stream.
pub struct LineFramer {
    pending: Vec<u8>,
}

impl View for LineFramer {
    type V = Seq<u8>;

    closed spec fn view(&self) -> Seq<u8> {
        self.pending@
    }
}

impl LineFramer {
    /// A framer with nothing received yet.
    pub fn new() -> (r: LineFramer)
        ensures
            r@ == Seq::<u8>::empty(),
    {
        LineFramer { pending: Vec::new() }
    }

    /// Appends bytes just read from the stream.
    pub fn push(&mut self, chunk: &[u8])
        ensures
            final(self)@ == old(self)@ + chunk@,
    {
        let ghost start = self@;
        let mut i: usize = 0;
        while i < chunk.len()
            invariant
                i <= chunk@.len(),
                self@ == start + chunk@.take(i as int),
            decreases chunk@.len() - i,
        {
            self.pending.push(chunk[i]);
            i = i + 1;
            assert(chunk@.take(i as int) =~= chunk@.take(i - 1).push(chunk@[i - 1]));
        }
        assert(chunk@.take(i as int) =~= chunk@);
    }

    /// Whether a complete frame is waiting.
    pub fn has_frame(&self) -> (r: bool)
        ensures
            r == !newline_free(self@),
    {
        let mut i: usize = 0;
        while i < self.pending.len()
            invariant
                i <= self@.len(),
                newline_free(self@.take(i as int)),
            decreases self@.len() - i,
        {
            if self.pending[i] == NEWLINE {
                return true;
            }
            i = i + 1;
            assert(newline_free(self@.take(i as int))) by {
                assert forall|j: int| 0 <= j < i implies #[trigger] self@.take(i as int)[j]
                    != NEWLINE by {
                    if j < i - 1 {
                        assert(self@.take(i as int)[j] == self@.take(i - 1)[j]);
                    }
                }
            }
        }
        assert(self@.take(i as int) =~= self@);
        false
    }

    /// Takes the next frame off the stream.
    ///
    /// A complete frame, delimiter included, is returned and removed
    /// whenever one is waiting. Without one, `None` asks for more bytes,
    /// unless the stream has ended (`at_end`): then everything left is
    /// returned, which is empty exactly when the peer closed the stream
    /// with no partial line outstanding.
    pub fn take_frame(&mut self, at_end: bool) -> (r: Option<Vec<u8>>)
        ensures
            match r {
                Some(f) => if newline_free(old(self)@) {
                    at_end && f@ == old(self)@ && final(self)@ == Seq::<u8>::empty()
                } else {
                    &&& is_frame_prefix(old(self)@, f@.len() as int)
                    &&& f@ == old(self)@.take(f@.len() as int)
                    &&& final(self)@ == old(self)@.skip(f@.len() as int)
                },
                None => newline_free(old(self)@) && !at_end && final(self)@ == old(self)@,
            },
    {
        let ghost start = self@;
        let mut i: usize = 0;
        while i < self.pending.len()
            invariant
                self@ == start,
                start == old(self)@,
                i <= start.len(),
                newline_free(start.take(i as int)),
            decreases start.len() - i,
        {
            if self.pending[i] == NEWLINE {
                let mut frame = self.pending.split_off(i + 1);
                std::mem::swap(&mut self.pending, &mut frame);
                assert(frame@ =~= start.take(i + 1));
                assert(self@ =~= start.skip(i + 1));
                assert(is_frame_prefix(start, i + 1));
                assert(!newline_free(start)) by {
                    assert(start[i as int] == NEWLINE);
                }
                return Some(frame);
            }
            i = i + 1;
            assert(newline_free(start.take(i as int))) by {
                assert forall|j: int| 0 <= j < i implies #[trigger] start.take(i as int)[j]
                    != NEWLINE by {
                    if j < i - 1 {
                        assert(start.take(i as int)[j] == start.take(i - 1)[j]);
                    }
                }
            }
        }
        assert(start.take(i as int) =~= start);
        if at_end {
            let mut rest: Vec<u8> = Vec::new();
            std::mem::swap(&mut self.pending, &mut rest);
            Some(rest)
        } else {
            None
        }
    }
}

/// The length of the first complete frame of `buf`, when it has one.
pub open spec fn first_frame_len(buf: Seq<u8>) -> int {
    choose|n: int| is_frame_prefix(buf, n)
}

/// The first `k` frames of `buf`, in the order that successive takes cut
/// them off.
pub open spec fn frames(buf: Seq<u8>, k: nat) -> Seq<Seq<u8>>
    decreases k,
{
    if k == 0 {
        Seq::empty()
    } else {
        let n = first_frame_len(buf);
        seq![buf.take(n)] + frames(buf.skip(n), (k - 1) as nat)
    }
}

/// The bytes that the lines `lines` put on the wire, one after another.
pub open spec fn encode_lines(lines: Seq<Seq<u8>>) -> Seq<u8>
    decreases lines.len(),
{
    if lines.len() == 0 {
        Seq::empty()
    } else {
        encode_line(lines[0]) + encode_lines(lines.drop_first())
    }
}

/// Frame boundaries are kept: a line with no newline in it, sent with its
/// delimiter and followed by any other bytes, is the one frame that can be
/// taken next, whole, and the bytes after it stay pending untouched.
pub proof fn lemma_frame_boundary(line: Seq<u8>, rest: Seq<u8>)
    requires
        newline_free(line),
    ensures
        !newline_free(encode_line(line) + rest),
        is_frame_prefix(encode_line(line) + rest, (line.len() + 1) as int),
        forall|n: int| #[trigger]
            is_frame_prefix(encode_line(line) + rest, n) ==> n == (line.len() + 1) as int,
        first_frame_len(encode_line(line) + rest) == (line.len() + 1) as int,
        (encode_line(line) + rest).take((line.len() + 1) as int) == encode_line(line),
        (encode_line(line) + rest).skip((line.len() + 1) as int) == rest,
{
    let buf = encode_line(line) + rest;
    let k = line.len() as int;
    assert(buf[k] == NEWLINE);
    assert(buf.take(k) =~= line);
    assert(is_frame_prefix(buf, k + 1));
    assert forall|n: int| #[trigger] is_frame_prefix(buf, n) implies n == k + 1 by {
        if n < k + 1 {
            assert(buf[n - 1] == line[n - 1]);
        } else if n > k + 1 {
            assert(buf.take(n - 1)[k] == NEWLINE);
        }
    }
    assert(buf.take(k + 1) =~= encode_line(line));
    assert(buf.skip(k + 1) =~= rest);
}

/// Frames come out in the order they were sent, exactly one per line: the
/// bytes of lines without newlines, followed by anything, cut into as many
/// frames as there were lines, give back each line with its delimiter.
pub proof fn lemma_frames_in_order(lines: Seq<Seq<u8>>, rest: Seq<u8>)
    requires
        forall|i: int| 0 <= i < lines.len() ==> newline_free(#[trigger] lines[i]),
    ensures
        frames(encode_lines(lines) + rest, lines.len()) == lines.map_values(
            |l: Seq<u8>| encode_line(l),
        ),
    decreases lines.len(),
{
    let expected = lines.map_values(|l: Seq<u8>| encode_line(l));
    if lines.len() == 0 {
        assert(frames(encode_lines(lines) + rest, 0) =~= expected);
    } else {
        let tail = lines.drop_first();
        let after = encode_lines(tail) + rest;
        assert(encode_lines(lines) + rest =~= encode_line(lines[0]) + after);
        lemma_frame_boundary(lines[0], after);
        assert forall|i: int| 0 <= i < tail.len() implies newline_free(#[trigger] tail[i]) by {
            assert(tail[i] == lines[i + 1]);
        }
        lemma_frames_in_order(tail, rest);
        assert(frames(encode_lines(lines) + rest, lines.len()) =~= expected);
    }
}

} // verus!
