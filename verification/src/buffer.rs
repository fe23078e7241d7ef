//! The output slot that carries a result across the boundary.

use vstd::prelude::*;

verus! {

/// An output slot: either null, or the owner of exactly one result buffer
/// whose length it also records as a 32-bit number.
///
/// The slot is viewed as the bytes it owns, `None` standing for the null slot.
/// A slot that owns an empty buffer (`Some` of the empty sequence) is not null.
pub struct SizedByteArray {
    arr: Option<Vec<u8>>,
    size: u32,
}

impl View for SizedByteArray {
    type V = Option<Seq<u8>>;

    closed spec fn view(&self) -> Option<Seq<u8>> {
        match self.arr {
            Some(bytes) => Some(bytes@),
            None => None,
        }
    }
}

/// Whether a buffer of these bytes can be described by a 32-bit length.
pub open spec fn fits_size_field(bytes: Seq<u8>) -> bool {
    bytes.len() <= u32::MAX
}

/// A fresh buffer that holds exactly the bytes of `source`.
pub fn copy_to_buffer(source: &[u8]) -> (buffer: Vec<u8>)
    ensures
        buffer@ == source@,
{
    let n: usize = source.len();
    let mut buffer: Vec<u8> = Vec::with_capacity(n);
    let mut i: usize = 0;
    while i < n
        invariant
            n == source@.len(),
            i <= n,
            buffer@ == source@.take(i as int),
        decreases n - i,
    {
        buffer.push(source[i]);
        i = i + 1;
    }
    buffer
}

impl SizedByteArray {
    /// The recorded size always is the length of the owned buffer, and zero
    /// for the null slot.
    #[verifier::type_invariant]
    closed spec fn size_matches_buffer(self) -> bool {
        match self.arr {
            Some(bytes) => bytes@.len() == self.size,
            None => self.size == 0,
        }
    }

    /// Number of bytes the slot owns: the length of its buffer, zero if null.
    pub open spec fn len(&self) -> nat {
        match self@ {
            Some(bytes) => bytes.len(),
            None => 0,
        }
    }

    /// The null slot, which owns nothing.
    pub fn new() -> (slot: SizedByteArray)
        ensures
            slot@ is None,
    {
        SizedByteArray { arr: None, size: 0 }
    }

    /// Whether the slot owns no buffer.
    pub fn is_null(&self) -> (null: bool)
        ensures
            null <==> self@ is None,
    {
        self.arr.is_none()
    }

    /// The size field: the number of bytes owned, which always fits 32 bits.
    pub fn size(&self) -> (n: u32)
        ensures
            n == self.len(),
    {
        proof {
            use_type_invariant(self);
        }
        self.size
    }

    /// A read-only look at the owned buffer, if there is one.
    pub fn bytes(&self) -> (held: Option<&[u8]>)
        ensures
            match held {
                Some(s) => self@ == Some(s@),
                None => self@ is None,
            },
    {
        match &self.arr {
            Some(buffer) => Some(buffer.as_slice()),
            None => None,
        }
    }

    /// Makes the slot the owner of `bytes`, provided their length fits the
    /// size field. Whatever the slot owned before is dropped. A buffer that is
    /// too long is refused and the slot keeps what it had.
    pub fn store(&mut self, bytes: Vec<u8>) -> (ok: bool)
        ensures
            ok <==> fits_size_field(bytes@),
            ok ==> final(self)@ == Some(bytes@),
            !ok ==> *final(self) == *old(self),
    {
        let n: usize = bytes.len();
        if n > u32::MAX as usize {
            return false;
        }
        *self = SizedByteArray { arr: Some(bytes), size: n as u32 };
        true
    }

    /// Hands the owned buffer to the caller and leaves the slot null, so that
    /// a buffer can be taken out of a slot once and no more.
    pub fn release(&mut self) -> (taken: Option<Vec<u8>>)
        ensures
            final(self)@ is None,
            match taken {
                Some(bytes) => old(self)@ == Some(bytes@),
                None => old(self)@ is None,
            },
    {
        let mut before = SizedByteArray { arr: None, size: 0 };
        std::mem::swap(self, &mut before);
        before.arr
    }
}

} // verus!
