//! The session buffer: bytes read from a connection accumulate here until a
//! line terminator arrives, and complete lines are taken out one at a time.
use vstd::prelude::*;

verus! {

/// The line terminator of the protocol.
pub const NEWLINE: u8 = 10;

/// `s` holds no line terminator.
pub open spec fn no_newline(s: Seq<u8>) -> bool {
    forall|i: int| 0 <= i < s.len() ==> s[i] != NEWLINE
}

/// `s` is one complete line: it ends with the terminator and holds no other.
pub open spec fn is_line(s: Seq<u8>) -> bool {
    &&& s.len() > 0
    &&& s.last() == NEWLINE
    &&& no_newline(s.drop_last())
}

/// Bytes received but not yet handed out as a line.
pub struct LineBuffer {
    bytes: Vec<u8>,
}

impl View for LineBuffer {
    type V = Seq<u8>;

    closed spec fn view(&self) -> Seq<u8> {
        self.bytes@
    }
}

impl LineBuffer {
    /// An empty buffer.
    pub fn new() -> (r: LineBuffer)
        ensures
            r@ == Seq::<u8>::empty(),
    {
        LineBuffer { bytes: Vec::new() }
    }

    /// Number of bytes held.
    pub fn len(&self) -> (r: usize)
        ensures
            r == self@.len(),
    {
        self.bytes.len()
    }

    /// Whether no byte is held.
    pub fn is_empty(&self) -> (r: bool)
        ensures
            r == (self@.len() == 0),
    {
        self.bytes.len() == 0
    }

    /// Appends the bytes of one read to the buffer.
    pub fn push_bytes(&mut self, chunk: &[u8])
        ensures
            final(self)@ == old(self)@ + chunk@,
    {
        let mut i: usize = 0;
        while i < chunk.len()
            invariant
                i <= chunk@.len(),
                self@ == old(self)@ + chunk@.subrange(0, i as int),
            decreases chunk@.len() - i,
        {
            self.bytes.push(chunk[i]);
            i = i + 1;
            assert(chunk@.subrange(0, i as int) == chunk@.subrange(0, i - 1) + seq![chunk@[i - 1]]);
        }
        assert(chunk@.subrange(0, i as int) == chunk@);
    }

    /// Index of the first line terminator held, if any.
    pub fn find_newline(&self) -> (r: Option<usize>)
        ensures
            match r {
                Some(k) => k < self@.len() && self@[k as int] == NEWLINE && no_newline(
                    self@.subrange(0, k as int),
                ),
                None => no_newline(self@),
            },
    {
        let mut i: usize = 0;
        while i < self.bytes.len()
            invariant
                i <= self@.len(),
                no_newline(self@.subrange(0, i as int)),
            decreases self@.len() - i,
        {
            if self.bytes[i] == NEWLINE {
                return Some(i);
            }
            i = i + 1;
            assert forall|j: int| 0 <= j < i implies self@.subrange(0, i as int)[j] != NEWLINE by {
                if j < i - 1 {
                    assert(self@.subrange(0, i as int)[j] == self@.subrange(0, i - 1)[j]);
                }
            }
        }
        assert(self@.subrange(0, i as int) == self@);
        None
    }

    /// Takes out the first complete line, terminator included, if the buffer
    /// holds one; the bytes after it stay for the next line.
    pub fn next_line(&mut self) -> (r: Option<Vec<u8>>)
        ensures
            match r {
                Some(line) => is_line(line@) && line@ + final(self)@ == old(self)@,
                None => no_newline(old(self)@) && final(self)@ == old(self)@,
            },
    {
        match self.find_newline() {
            None => None,
            Some(k) => {
                let ghost whole = self@;
                let mut line: Vec<u8> = Vec::new();
                let mut rest: Vec<u8> = Vec::new();
                let mut i: usize = 0;
                while i < self.bytes.len()
                    invariant
                        self@ == whole,
                        k < whole.len(),
                        i <= whole.len(),
                        i <= k + 1 ==> line@ == whole.subrange(0, i as int) && rest@.len() == 0,
                        i > k + 1 ==> line@ == whole.subrange(0, k + 1) && rest@ == whole.subrange(
                            k + 1,
                            i as int,
                        ),
                    decreases whole.len() - i,
                {
                    if i <= k {
                        line.push(self.bytes[i]);
                        assert(whole.subrange(0, i + 1) == whole.subrange(0, i as int) + seq![whole[i as int]]);
                    } else {
                        rest.push(self.bytes[i]);
                        assert(whole.subrange(k + 1, i + 1) == whole.subrange(k + 1, i as int) + seq![whole[i as int]]);
                    }
                    i = i + 1;
                }
                assert(line@.drop_last() == whole.subrange(0, k as int));
                assert(line@ + rest@ == whole);
                self.bytes = rest;
                Some(line)
            },
        }
    }

    /// Takes out everything held, once the peer has closed: the last line
    /// when it came without a terminator, `None` when nothing is left.
    pub fn take_rest(&mut self) -> (r: Option<Vec<u8>>)
        ensures
            final(self)@ == Seq::<u8>::empty(),
            match r {
                Some(rest) => old(self)@.len() > 0 && rest@ == old(self)@,
                None => old(self)@.len() == 0,
            },
    {
        if self.bytes.len() == 0 {
            None
        } else {
            let mut rest: Vec<u8> = Vec::new();
            std::mem::swap(&mut rest, &mut self.bytes);
            Some(rest)
        }
    }
}

/// Framing depends on the bytes alone: however a byte stream is split into
/// a complete line and what follows, the line is the same, so the bytes
/// received determine every line handed out, and in what order.
pub proof fn lemma_first_line_unique(a: Seq<u8>, b: Seq<u8>, c: Seq<u8>, d: Seq<u8>)
    requires
        is_line(a),
        is_line(c),
        a + b == c + d,
    ensures
        a == c,
        b == d,
{
    let s = a + b;
    assert(s[a.len() - 1] == NEWLINE);
    assert(s[c.len() - 1] == NEWLINE);
    if a.len() < c.len() {
        assert(c.drop_last()[a.len() - 1] == s[a.len() - 1]);
    } else if c.len() < a.len() {
        assert(a.drop_last()[c.len() - 1] == s[c.len() - 1]);
    }
    assert(a =~= s.subrange(0, a.len() as int));
    assert(c =~= s.subrange(0, c.len() as int));
    assert(b =~= s.subrange(a.len() as int, s.len() as int));
    assert(d =~= s.subrange(c.len() as int, s.len() as int));
}

} // verus!
