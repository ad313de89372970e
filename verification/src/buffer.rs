//! The in-memory buffer that accumulates the bytes a child process writes to
//! standard error. The drain task appends at the back; the consumer removes
//! from the front, so the buffer behaves as a FIFO queue of bytes.
use vstd::math::min;
use vstd::prelude::*;

verus! {

/// Accumulates standard-error output between the producer (the drain task)
/// and the consumer (the read operation). Append-only at the back,
/// prefix-removable at the front; no other mutation exists.
pub struct StderrBuffer {
    data: Vec<u8>,
}

impl View for StderrBuffer {
    type V = Seq<u8>;

    closed spec fn view(&self) -> Seq<u8> {
        self.data@
    }
}

impl StderrBuffer {
    /// An empty buffer, as created together with a fresh process handle.
    pub fn new() -> (buf: StderrBuffer)
        ensures
            buf@ == Seq::<u8>::empty(),
    {
        StderrBuffer { data: Vec::new() }
    }

    /// How many bytes are currently available to read.
    pub fn len(&self) -> (n: usize)
        ensures
            n == self@.len(),
    {
        self.data.len()
    }

    /// Appends one chunk read from the child's standard-error pipe.
    /// Everything already buffered stays in place; the chunk follows it.
    pub fn append(&mut self, chunk: &[u8])
        requires
            old(self)@.len() + chunk@.len() <= usize::MAX,
        ensures
            final(self)@ == old(self)@ + chunk@,
    {
        let mut i: usize = 0;
        while i < chunk.len()
            invariant
                i <= chunk@.len(),
                self@ == old(self)@ + chunk@.take(i as int),
            decreases chunk@.len() - i,
        {
            let b = *vstd::slice::slice_index_get(chunk, i);
            self.data.push(b);
            i = i + 1;
            proof {
                assert(old(self)@ + chunk@.take(i as int) =~= (old(self)@ + chunk@.take(
                    i - 1,
                )).push(chunk@[i - 1]));
            }
        }
        proof {
            assert(chunk@.take(chunk@.len() as int) =~= chunk@);
        }
    }

    /// Removes and returns the first `min(capacity, available)` bytes, in
    /// order. Returns an empty vector when nothing is buffered; never blocks
    /// for more data to arrive.
    pub fn read(&mut self, capacity: usize) -> (out: Vec<u8>)
        ensures
            out@ == old(self)@.take(min(capacity as int, old(self)@.len() as int)),
            final(self)@ == old(self)@.skip(min(capacity as int, old(self)@.len() as int)),
    {
        let n = self.data.len();
        let k = if capacity < n {
            capacity
        } else {
            n
        };
        let mut rest = self.data.split_off(k);
        core::mem::swap(&mut self.data, &mut rest);
        proof {
            assert(rest@ =~= old(self)@.take(k as int));
            assert(self.data@ =~= old(self)@.skip(k as int));
        }
        rest
    }
}

/// Reading the whole buffer in two takes loses nothing and duplicates
/// nothing: the first read returns the first `capacity` bytes, the second
/// read returns the remainder, and together they are exactly what was
/// buffered, in order.
pub proof fn lemma_read_fifo(contents: Seq<u8>, capacity: int)
    requires
        0 <= capacity <= contents.len(),
    ensures
        contents.take(capacity) + contents.skip(capacity) == contents,
        contents.skip(capacity).len() == contents.len() - capacity,
{
    assert(contents.take(capacity) + contents.skip(capacity) =~= contents);
}

} // verus!
