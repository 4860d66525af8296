//! Chunks of text joined with a delimiter.
use vstd::prelude::*;
use vstd::string::StringExecFns;

verus! {

/// The chunks with the delimiter between each two neighbours, never before
/// the first or after the last.
pub open spec fn joined(chunks: Seq<Seq<char>>, delimiter: Seq<char>) -> Seq<char>
    decreases chunks.len(),
{
    if chunks.len() == 0 {
        Seq::empty()
    } else if chunks.len() == 1 {
        chunks[0]
    } else {
        joined(chunks.drop_last(), delimiter) + delimiter + chunks.last()
    }
}

/// An ordered sequence of chunks of text.
pub struct Buffer {
    chunks: Vec<String>,
}

impl View for Buffer {
    type V = Seq<Seq<char>>;

    closed spec fn view(&self) -> Seq<Seq<char>> {
        self.chunks@.map_values(|s: String| s@)
    }
}

impl Buffer {
    /// An empty buffer.
    pub fn new() -> (r: Buffer)
        ensures
            r@ == Seq::<Seq<char>>::empty(),
    {
        let r = Buffer { chunks: Vec::new() };
        assert(r@ =~= Seq::<Seq<char>>::empty());
        r
    }

    /// Append one chunk.
    pub fn push(&mut self, chunk: String)
        ensures
            final(self)@ == old(self)@.push(chunk@),
    {
        self.chunks.push(chunk);
        assert(self@ =~= old(self)@.push(chunk@));
    }

    /// Append one chunk copied from a string slice.
    pub fn push_str(&mut self, chunk: &str)
        ensures
            final(self)@ == old(self)@.push(chunk@),
    {
        self.push(String::from_str(chunk));
    }

    /// The chunks joined with the delimiter.
    pub fn join(self, delimiter: &str) -> (r: String)
        ensures
            r@ == joined(self@, delimiter@),
    {
        let mut result = String::new();
        let mut i: usize = 0;
        while i < self.chunks.len()
            invariant
                i <= self.chunks.len(),
                result@ == joined(self@.take(i as int), delimiter@),
            decreases self.chunks.len() - i,
        {
            proof {
                let next = self@.take(i + 1);
                assert(next.drop_last() =~= self@.take(i as int));
                assert(next.last() == self.chunks@[i as int]@);
                if i == 0 {
                    assert(self@.take(0) =~= Seq::<Seq<char>>::empty());
                }
            }
            if i > 0 {
                result.append(delimiter);
            }
            result.append(self.chunks[i].as_str());
            i = i + 1;
        }
        assert(self@.take(i as int) =~= self@);
        result
    }

    /// The number of chunks.
    pub fn len(&self) -> (r: usize)
        ensures
            r == self@.len(),
    {
        self.chunks.len()
    }
}

} // verus!
