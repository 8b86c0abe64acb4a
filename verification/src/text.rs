use vstd::prelude::*;
use vstd::slice::slice_to_vec;
use vstd::string::StringSliceAdditionalSpecFns;

verus! {

/// An owned, heap-backed text value: a byte sequence together with the
/// capacity of the storage that backs it. The capacity never falls below
/// the length.
pub struct OwnedText {
    bytes: Vec<u8>,
    cap: usize,
}

impl View for OwnedText {
    type V = Seq<u8>;

    closed spec fn view(&self) -> Seq<u8> {
        self.bytes@
    }
}

impl OwnedText {
    /// How many bytes the backing storage can hold.
    pub closed spec fn spec_capacity(&self) -> nat {
        self.cap as nat
    }

    /// The storage is never smaller than the text it holds.
    pub open spec fn wf(&self) -> bool {
        self@.len() <= self.spec_capacity()
    }

    /// The current length of the text, in bytes.
    pub fn length(&self) -> (n: usize)
        ensures
            n == self@.len(),
    {
        self.bytes.len()
    }

    /// The capacity of the backing storage, in bytes.
    pub fn capacity(&self) -> (c: usize)
        ensures
            c == self.spec_capacity(),
    {
        self.cap
    }

    /// The byte stored at position `i`.
    pub fn byte_at(&self, i: usize) -> (b: u8)
        requires
            i < self@.len(),
        ensures
            b == self@[i as int],
    {
        self.bytes[i]
    }
}

/// Copies a fixed literal into freshly allocated owned storage. The new
/// value holds exactly the literal's bytes, and its capacity equals its
/// length: the allocation is sized to the literal.
pub fn convert_literal_to_owned_text(literal: &str) -> (t: OwnedText)
    ensures
        t@ == literal.spec_bytes(),
        t.spec_capacity() == t@.len(),
        t.wf(),
{
    let bytes = slice_to_vec(literal.as_bytes());
    let cap = bytes.len();
    OwnedText { bytes, cap }
}

/// Takes ownership of a text value and hands back exactly the bytes of the
/// console line it stands for. The argument is moved in, so the caller's
/// binding is unusable afterwards: ownership of the backing storage passes
/// to the returned line, and no handle to the text value remains.
pub fn consume_text(text: OwnedText) -> (line: Vec<u8>)
    ensures
        line@ == text@,
{
    text.bytes
}

} // verus!
