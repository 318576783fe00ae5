use vstd::prelude::*;

verus! {

/// An owned, contiguous, fixed-length sequence of bytes produced by a
/// generator. Ownership of the underlying storage moves with the value, so a
/// block is destroyed exactly once: when it is released (or dropped).
pub struct Block {
    data: Vec<u8>,
}

impl View for Block {
    type V = Seq<u8>;

    closed spec fn view(&self) -> Seq<u8> {
        self.data@
    }
}

impl Block {
    /// Wraps a computed byte buffer as an owned block.
    pub fn from_bytes(data: Vec<u8>) -> (b: Block)
        ensures
            b@ == data@,
    {
        Block { data }
    }

    /// The number of bytes the block holds.
    pub fn len(&self) -> (n: usize)
        ensures
            n == self@.len(),
    {
        self.data.len()
    }

    /// The byte at position `i` of the flat layout.
    pub fn byte_at(&self, i: usize) -> (v: u8)
        requires
            i < self@.len(),
        ensures
            v == self@[i as int],
    {
        self.data[i]
    }

    /// Surrenders the underlying storage, for a caller that takes the bytes
    /// across an ownership boundary of its own.
    pub fn into_bytes(self) -> (v: Vec<u8>)
        ensures
            v@ == self@,
    {
        self.data
    }
}

/// When a release request is well-formed: an absent handle (the "nothing to
/// free" case) may carry any length, while a present block must be released
/// with exactly the length it was produced with.
pub open spec fn valid_release(handle: Option<Block>, len: nat) -> bool {
    match handle {
        Option::Some(b) => len == b@.len(),
        Option::None => true,
    }
}

/// Destroys a block exactly once, consuming its handle. An absent handle is a
/// no-op. Releasing with a length other than the block's own is excluded by
/// precondition: the caller owes the exact pairing it was handed.
///
/// Double release and use after release cannot be expressed against this
/// signature: the handle is consumed by value, so the type system retires it
/// here.
pub fn release_block(handle: Option<Block>, len: usize)
    requires
        valid_release(handle, len as nat),
{
}

/// A handle straight from a generator, paired with the length the generator
/// reported for it, is always accepted by release.
pub proof fn lemma_release_round_trip(b: Block, len: usize)
    requires
        len == b@.len(),
    ensures
        valid_release(Some(b), len as nat),
{
}

/// An absent handle is accepted with any length: release is a safe no-op on
/// "nothing to free".
pub proof fn lemma_release_absent(len: usize)
    ensures
        valid_release(None, len as nat),
{
}

} // verus!
