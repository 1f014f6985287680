//! The datagram buffer: a fixed-capacity byte buffer, backed by a
//! `heapless::Vec` so the capacity is part of the type, used for both
//! transmit staging and receive landing.  A fresh buffer is zero-filled to
//! full capacity; a received datagram's bytes then overwrite its front,
//! leaving the fill pattern in the unwritten tail — exactly the state the
//! frame codec's trimming convention expects.

use vstd::prelude::*;

use crate::codec;
use crate::codec::{BUFFER_CAPACITY, FILL_BYTE};

verus! {

#[verifier::external_type_specification]
#[verifier::external_body]
#[verifier::reject_recursive_types(T)]
pub struct ExHeaplessVec<T, const N: usize>(heapless::Vec<T, N>);

/// The bytes a `heapless::Vec<u8, 2048>` holds, front to back.
pub uninterp spec fn hvec_bytes(v: heapless::Vec<u8, 2048>) -> Seq<u8>;

/// Relies on `heapless::Vec::new`: constructs an empty vector.
#[verifier::external_body]
fn hvec_new() -> (v: heapless::Vec<u8, 2048>)
    ensures
        hvec_bytes(v) == Seq::<u8>::empty(),
{
    heapless::Vec::new()
}

/// Relies on `heapless::Vec::push`: appends the item at the back; the
/// vector is below its capacity of 2048, so the push cannot fail.
#[verifier::external_body]
fn hvec_push(v: &mut heapless::Vec<u8, 2048>, b: u8)
    requires
        hvec_bytes(*old(v)).len() < 2048,
    ensures
        hvec_bytes(*final(v)) == hvec_bytes(*old(v)).push(b),
{
    let _ = v.push(b);
}

/// Relies on `heapless::Vec`'s `DerefMut` to a slice: assigning through an
/// in-bounds index replaces that element and no other.
#[verifier::external_body]
fn hvec_set(v: &mut heapless::Vec<u8, 2048>, i: usize, b: u8)
    requires
        i < hvec_bytes(*old(v)).len(),
    ensures
        hvec_bytes(*final(v)) == hvec_bytes(*old(v)).update(i as int, b),
{
    v[i] = b;
}

/// Relies on `heapless::Vec::as_slice`: a slice of the entire contents.
#[verifier::external_body]
fn hvec_as_slice(v: &heapless::Vec<u8, 2048>) -> (s: &[u8])
    ensures
        s@ == hvec_bytes(*v),
{
    v.as_slice()
}

/// A fixed-capacity datagram buffer.  Fresh buffers hold the fill pattern
/// in every position; loading a payload overwrites the front and leaves
/// the tail's fill in place.
pub struct DatagramBuffer {
    data: heapless::Vec<u8, 2048>,
}

impl View for DatagramBuffer {
    type V = Seq<u8>;

    closed spec fn view(&self) -> Seq<u8> {
        hvec_bytes(self.data)
    }
}

impl DatagramBuffer {
    /// A fresh buffer, zero-filled to full capacity.
    pub fn new_zero_filled() -> (b: DatagramBuffer)
        ensures
            b@.len() == BUFFER_CAPACITY,
            forall|i: int| 0 <= i < b@.len() ==> b@[i] == FILL_BYTE,
    {
        let mut data = hvec_new();
        let mut i: usize = 0;
        while i < BUFFER_CAPACITY
            invariant
                i <= BUFFER_CAPACITY,
                hvec_bytes(data).len() == i,
                forall|j: int| 0 <= j < i ==> hvec_bytes(data)[j] == FILL_BYTE,
            decreases BUFFER_CAPACITY - i,
        {
            hvec_push(&mut data, FILL_BYTE);
            i += 1;
        }
        DatagramBuffer { data }
    }

    /// Overwrite the front of the buffer with a received datagram's bytes,
    /// leaving the rest of the buffer — the zero fill, for a fresh buffer —
    /// unchanged, as a receive call landing in a pre-zeroed buffer does.
    pub fn load_payload(&mut self, payload: &[u8])
        requires
            payload@.len() <= old(self)@.len(),
        ensures
            final(self)@ == payload@ + old(self)@.skip(payload@.len() as int),
    {
        let mut i: usize = 0;
        while i < payload.len()
            invariant
                i <= payload@.len(),
                payload@.len() <= self@.len(),
                self@.len() == old(self)@.len(),
                forall|j: int| 0 <= j < i ==> self@[j] == payload@[j],
                forall|j: int| i <= j < self@.len() ==> self@[j] == old(self)@[j],
            decreases payload@.len() - i,
        {
            hvec_set(&mut self.data, i, payload[i]);
            i += 1;
        }
        proof {
            assert(self@ =~= payload@ + old(self)@.skip(payload@.len() as int));
        }
    }

    /// The buffer's entire contents, fill pattern included.
    pub fn bytes(&self) -> (s: &[u8])
        ensures
            s@ == self@,
    {
        hvec_as_slice(&self.data)
    }

    /// Decode the buffer into the logical message body, per the frame
    /// codec: strip trailing fill, then decode as UTF-8 (lossy).
    pub fn decode(&self) -> (s: String)
        ensures
            s@ == codec::lossy_decoded(codec::strip_fill(self@)),
            vstd::utf8::valid_utf8(codec::strip_fill(self@)) ==> s@ == vstd::utf8::decode_utf8(
                codec::strip_fill(self@),
            ),
    {
        codec::decode_datagram(self.bytes())
    }
}

} // verus!
