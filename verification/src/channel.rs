//! Line framing over a byte stream: a receive buffer that accumulates raw
//! bytes as they arrive and hands out one newline-terminated line at a time,
//! with the trailing newline kept.

use vstd::prelude::*;

verus! {

/// The byte that terminates a line.
pub const NEWLINE: u8 = 10;

/// Whether the byte sequence holds a complete line, that is, at least one
/// newline byte.
pub open spec fn has_newline(s: Seq<u8>) -> bool {
    exists|i: int| 0 <= i < s.len() && s[i] == NEWLINE
}

/// The length of the first line of `s`, the trailing newline included; the
/// whole of `s` when no newline occurs in it.
pub open spec fn first_line_len(s: Seq<u8>) -> int
    decreases s.len(),
{
    if s.len() == 0 {
        0
    } else if s[0] == NEWLINE {
        1
    } else {
        1 + first_line_len(s.skip(1))
    }
}

/// A single framed message: non-empty, newline-terminated, and with no
/// newline before the final byte.
pub open spec fn is_frame(msg: Seq<u8>) -> bool {
    &&& msg.len() > 0
    &&& msg[msg.len() - 1] == NEWLINE
    &&& forall|i: int| 0 <= i < msg.len() - 1 ==> msg[i] != NEWLINE
}

/// Pins `first_line_len` down from a witness: if position `i` holds the first
/// newline of `s`, the first line is exactly the `i + 1` leading bytes.
pub proof fn lemma_first_line_at(s: Seq<u8>, i: int)
    requires
        0 <= i < s.len(),
        s[i] == NEWLINE,
        forall|j: int| 0 <= j < i ==> s[j] != NEWLINE,
    ensures
        has_newline(s),
        first_line_len(s) == i + 1,
    decreases i,
{
    if i > 0 {
        lemma_first_line_at(s.skip(1), i - 1);
    }
}

/// When no byte of `s` is a newline, the first line is all of `s`.
pub proof fn lemma_no_newline(s: Seq<u8>)
    requires
        forall|j: int| 0 <= j < s.len() ==> s[j] != NEWLINE,
    ensures
        !has_newline(s),
        first_line_len(s) == s.len(),
    decreases s.len(),
{
    if s.len() > 0 {
        lemma_no_newline(s.skip(1));
    }
}

/// Round-trip framing: a single newline-terminated message standing at the
/// head of the receive buffer is recovered verbatim, trailing newline
/// included, and exactly the bytes after it remain. Whatever a peer writes as
/// one full message is therefore read back as one line, for arbitrary byte
/// content without an interior newline.
pub proof fn lemma_frame_round_trip(msg: Seq<u8>, rest: Seq<u8>)
    requires
        is_frame(msg),
    ensures
        has_newline(msg + rest),
        first_line_len(msg + rest) == msg.len(),
        (msg + rest).take(msg.len() as int) == msg,
        (msg + rest).skip(msg.len() as int) == rest,
{
    let s = msg + rest;
    assert forall|j: int| 0 <= j < msg.len() - 1 implies s[j] != NEWLINE by {
        assert(s[j] == msg[j]);
    }
    lemma_first_line_at(s, msg.len() - 1);
    assert(s.take(msg.len() as int) =~= msg);
    assert(s.skip(msg.len() as int) =~= rest);
}

/// The receive half of a line channel: bytes read off the transport are
/// pushed in at the back, complete lines are taken off the front.
pub struct LineBuffer {
    data: Vec<u8>,
}

impl LineBuffer {
    /// The bytes received but not yet handed out, oldest first.
    pub closed spec fn view(&self) -> Seq<u8> {
        self.data@
    }

    /// An empty receive buffer.
    pub fn new() -> (b: LineBuffer)
        ensures
            b@ == Seq::<u8>::empty(),
    {
        LineBuffer { data: Vec::new() }
    }

    /// How many bytes are buffered.
    pub fn len(&self) -> (n: usize)
        ensures
            n == self@.len(),
    {
        self.data.len()
    }

    /// Appends bytes that arrived on the transport to the back of the buffer.
    pub fn push_chunk(&mut self, chunk: &[u8])
        requires
            old(self)@.len() + chunk@.len() <= usize::MAX,
        ensures
            final(self)@ == old(self)@ + chunk@,
    {
        let n = chunk.len();
        let mut i: usize = 0;
        while i < n
            invariant
                i <= n,
                n == chunk@.len(),
                self@ == old(self)@ + chunk@.take(i as int),
            decreases n - i,
        {
            self.data.push(chunk[i]);
            i = i + 1;
            assert(old(self)@ + chunk@.take(i - 1) + seq![chunk@[i - 1]] =~= old(
                self,
            )@ + chunk@.take(i as int));
        }
        assert(old(self)@ + chunk@.take(n as int) =~= old(self)@ + chunk@);
    }

    /// Takes the first complete line off the front of the buffer, the
    /// trailing newline included, or returns nothing and leaves the buffer
    /// unchanged when no complete line has arrived yet.
    pub fn take_line(&mut self) -> (r: Option<Vec<u8>>)
        ensures
            has_newline(old(self)@) ==> (r matches Some(line) && line@ == old(self)@.take(
                first_line_len(old(self)@),
            ) && final(self)@ == old(self)@.skip(first_line_len(old(self)@))),
            !has_newline(old(self)@) ==> r is None && final(self)@ == old(self)@,
    {
        let n = self.data.len();
        let mut i: usize = 0;
        while i < n && self.data[i] != NEWLINE
            invariant
                i <= n,
                n == self@.len(),
                self@ == old(self)@,
                forall|j: int| 0 <= j < i ==> self@[j] != NEWLINE,
            decreases n - i,
        {
            i = i + 1;
        }
        if i == n {
            proof {
                lemma_no_newline(self@);
            }
            return None;
        }
        proof {
            lemma_first_line_at(self@, i as int);
        }
        let end = i + 1;
        let mut line: Vec<u8> = Vec::new();
        let mut k: usize = 0;
        while k < end
            invariant
                k <= end,
                end <= n,
                n == self@.len(),
                self@ == old(self)@,
                line@ == self@.take(k as int),
            decreases end - k,
        {
            line.push(self.data[k]);
            k = k + 1;
            assert(self@.take(k - 1) + seq![self@[k - 1]] =~= self@.take(k as int));
        }
        let mut rest: Vec<u8> = Vec::new();
        let mut k: usize = end;
        while k < n
            invariant
                end <= k <= n,
                n == self@.len(),
                self@ == old(self)@,
                rest@ == self@.subrange(end as int, k as int),
            decreases n - k,
        {
            rest.push(self.data[k]);
            k = k + 1;
            assert(self@.subrange(end as int, k - 1) + seq![self@[k - 1]] =~= self@.subrange(
                end as int,
                k as int,
            ));
        }
        assert(rest@ =~= self@.skip(end as int));
        self.data = rest;
        Some(line)
    }
}

} // verus!
