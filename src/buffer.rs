//! The encoding buffer: a reusable byte buffer into which a record is rendered
//! and then terminated by a null byte for the OS syslog call.
use vstd::prelude::*;

verus! {

/// Capacity that a new buffer reserves, so that most records need no growth.
pub const DEFAULT_BUF_SIZE: usize = 4096;

/// A growable byte buffer, reset between uses without giving back its capacity.
///
/// Its view is what was written since the last reset, terminator included once
/// one was appended.
pub struct BufWriter {
    buf: Vec<u8>,
}

/// The content after a reset: nothing.
pub open spec fn spec_reset(content: Seq<u8>) -> Seq<u8> {
    Seq::empty()
}

/// The content after a write: the written bytes follow what was there.
pub open spec fn spec_write(content: Seq<u8>, data: Seq<u8>) -> Seq<u8> {
    content + data
}

/// The content after termination: one null byte follows what was there.
pub open spec fn spec_terminate(content: Seq<u8>) -> Seq<u8> {
    content.push(0)
}

impl View for BufWriter {
    type V = Seq<u8>;

    closed spec fn view(&self) -> Seq<u8> {
        self.buf@
    }
}

impl BufWriter {
    /// An empty buffer with `DEFAULT_BUF_SIZE` bytes reserved.
    pub fn new() -> (r: BufWriter)
        ensures
            r@ == Seq::<u8>::empty(),
    {
        BufWriter { buf: Vec::with_capacity(DEFAULT_BUF_SIZE) }
    }

    /// Starts a new use: the content is dropped, the capacity kept.
    pub fn acquire(&mut self)
        ensures
            final(self)@ == spec_reset(old(self)@),
    {
        self.buf.clear();
    }

    /// Appends bytes after what was written since the last reset; returns how many
    /// were written, which is all of them.
    pub fn write(&mut self, data: &[u8]) -> (r: usize)
        ensures
            final(self)@ == spec_write(old(self)@, data@),
            r == data@.len(),
    {
        let ghost before = self.buf@;
        let mut i: usize = 0;
        while i < data.len()
            invariant
                i <= data@.len(),
                self.buf@ == before + data@.subrange(0, i as int),
            decreases data@.len() - i,
        {
            self.buf.push(data[i]);
            assert(data@.subrange(0, i + 1) =~= data@.subrange(0, i as int).push(data@[i as int]));
            i = i + 1;
        }
        assert(data@.subrange(0, i as int) =~= data@);
        data.len()
    }

    /// Nothing is held back: the content stays as it is.
    pub fn flush(&mut self)
        ensures
            final(self)@ == old(self)@,
    {
    }

    /// Appends the null terminator and lends out the terminated content, valid
    /// until the next use of the buffer.
    pub fn as_c_str(&mut self) -> (r: &[u8])
        ensures
            final(self)@ == spec_terminate(old(self)@),
            r@ == final(self)@,
    {
        self.buf.push(0);
        self.buf.as_slice()
    }

    /// The current content.
    pub fn as_bytes(&self) -> (r: &[u8])
        ensures
            r@ == self@,
    {
        self.buf.as_slice()
    }
}

/// What a buffer holds after a run of uses, each of which resets it, writes one
/// payload and terminates it.
pub open spec fn after_uses(start: Seq<u8>, payloads: Seq<Seq<u8>>) -> Seq<u8>
    decreases payloads.len(),
{
    if payloads.len() == 0 {
        start
    } else {
        let before = after_uses(start, payloads.drop_last());
        spec_terminate(spec_write(spec_reset(before), payloads.last()))
    }
}

/// However many uses came before and however long their payloads were, after a
/// use the buffer ends in the null terminator and the bytes before it are exactly
/// that use's payload: nothing of an earlier, longer payload is left.
pub proof fn lemma_reuse_leaks_nothing(start: Seq<u8>, payloads: Seq<Seq<u8>>)
    requires
        payloads.len() > 0,
    ensures
        after_uses(start, payloads).len() == payloads.last().len() + 1,
        after_uses(start, payloads).last() == 0,
        after_uses(start, payloads).drop_last() == payloads.last(),
{
    assert((Seq::<u8>::empty() + payloads.last()).push(0).drop_last() =~= payloads.last());
}

} // verus!
