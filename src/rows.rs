//! Counting the rows of a source, chunk by chunk, to size progress display.
//! A row is a line: a run of bytes ended by a newline, or a final run
//! without one.
use vstd::prelude::*;

verus! {

/// The number of newline bytes in `s`.
pub open spec fn newlines(s: Seq<u8>) -> nat
    decreases s.len(),
{
    if s.len() == 0 {
        0
    } else {
        newlines(s.drop_last()) + if s.last() == 10 { 1nat } else { 0nat }
    }
}

/// Whether `s` ends in a line that has no newline after it.
pub open spec fn has_open_line(s: Seq<u8>) -> bool {
    s.len() > 0 && s.last() != 10
}

/// The number of lines in `s`.
pub open spec fn line_count(s: Seq<u8>) -> nat {
    newlines(s) + if has_open_line(s) { 1nat } else { 0nat }
}

pub proof fn lemma_newlines_concat(a: Seq<u8>, b: Seq<u8>)
    ensures
        newlines(a + b) == newlines(a) + newlines(b),
    decreases b.len(),
{
    if b.len() > 0 {
        lemma_newlines_concat(a, b.drop_last());
        assert((a + b).drop_last() =~= a + b.drop_last());
    } else {
        assert(a + b =~= a);
    }
}

/// Counts the lines of a byte stream handed over in chunks.
#[derive(Clone, Copy, Debug, PartialEq, Eq, Structural)]
pub struct LineCounter {
    /// Newlines seen so far.
    pub newlines: u64,
    /// Whether the bytes seen so far end inside a line.
    pub open_line: bool,
}

impl LineCounter {
    /// The counter of a stream seen so far as `seen`.
    pub open spec fn counts(self, seen: Seq<u8>) -> bool {
        self.newlines as nat == newlines(seen) && self.open_line == has_open_line(seen)
    }

    pub fn new() -> (c: LineCounter)
        ensures
            c.counts(Seq::empty()),
    {
        LineCounter { newlines: 0, open_line: false }
    }

    /// Takes in the next chunk of the stream.
    pub fn feed(&mut self, chunk: &[u8])
        requires
            old(self).newlines + chunk@.len() <= u64::MAX,
        ensures
            final(self).newlines as nat == old(self).newlines as nat + newlines(chunk@),
            final(self).open_line == if chunk@.len() > 0 { has_open_line(chunk@) } else { old(self).open_line },
    {
        let mut i: usize = 0;
        let mut n: u64 = self.newlines;
        while i < chunk.len()
            invariant
                i <= chunk@.len(),
                n as nat == old(self).newlines as nat + newlines(chunk@.take(i as int)),
                newlines(chunk@.take(i as int)) <= i,
                old(self).newlines + chunk@.len() <= u64::MAX,
            decreases chunk@.len() - i,
        {
            assert(chunk@.take(i + 1).drop_last() =~= chunk@.take(i as int));
            if chunk[i] == 10 {
                n = n + 1;
            }
            i = i + 1;
        }
        assert(chunk@.take(i as int) =~= chunk@);
        self.newlines = n;
        if chunk.len() > 0 {
            self.open_line = chunk[chunk.len() - 1] != 10;
        }
    }

    /// The number of lines in everything fed so far.
    pub fn finish(&self) -> (r: u64)
        requires
            self.newlines < u64::MAX,
        ensures
            r as nat == self.newlines as nat + if self.open_line { 1nat } else { 0nat },
            forall|seen: Seq<u8>| #[trigger] self.counts(seen) ==> r as nat == line_count(seen),
    {
        if self.open_line { self.newlines + 1 } else { self.newlines }
    }
}

/// Feeding a stream in any two pieces counts its lines as a whole.
pub proof fn lemma_feed_counts(c: LineCounter, seen: Seq<u8>, chunk: Seq<u8>, next: LineCounter)
    requires
        c.counts(seen),
        next.newlines as nat == c.newlines as nat + newlines(chunk),
        next.open_line == if chunk.len() > 0 { has_open_line(chunk) } else { c.open_line },
    ensures
        next.counts(seen + chunk),
{
    lemma_newlines_concat(seen, chunk);
    if chunk.len() == 0 {
        assert(seen + chunk =~= seen);
    } else {
        assert((seen + chunk).last() == chunk.last());
    }
}

} // verus!
