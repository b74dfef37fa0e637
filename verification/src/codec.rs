//! The alignment-aware codec.
//!
//! Encoding borrows a value's own bytes and never allocates. Decoding
//! reinterprets a byte view in place when its address satisfies the value
//! type's alignment, and otherwise copies the view into one fresh,
//! correctly aligned value; a view whose length differs from the type's
//! size is rejected with [`DecodeError::LengthMismatch`].

use crate::plain::{CastError, PlainValue};
use vstd::prelude::*;

verus! {

/// Errors surfaced by decoding. Alignment is deliberately absent: a
/// misaligned byte view is absorbed by the copy fallback and never reaches
/// the caller as an error.
#[derive(Clone, Copy, Debug, PartialEq, Eq)]
pub enum DecodeError {
    /// The byte view's length differs from the value type's size.
    LengthMismatch,
    /// The byte pattern or cast is invalid for the value type for a reason
    /// other than alignment or length. Reserved for value types with
    /// validity constraints stricter than the plain fixed-layout capability,
    /// which admits every byte pattern; no such type is in this crate.
    RepresentationError,
}

/// A decoded value: either a reference into the input byte view, valid while
/// the view outlives it, or an owned copy made because the view's address
/// did not satisfy the value type's alignment. Which variant is produced is
/// the codec's choice; both hold the value the bytes represent.
#[derive(Debug)]
pub enum Decoded<'a, T> {
    /// The value, reinterpreted in place: no copy was made.
    Borrowed(&'a T),
    /// An owned copy of the value, independent of the input byte view.
    Owned(T),
}

impl<'a, T> Decoded<'a, T> {
    /// The decoded value, whichever variant holds it.
    pub open spec fn value(self) -> T {
        match self {
            Decoded::Borrowed(v) => *v,
            Decoded::Owned(v) => v,
        }
    }

    /// True when the value is borrowed from the input byte view, so no copy
    /// was made.
    pub fn is_borrowed(&self) -> (r: bool)
        ensures
            r == (*self is Borrowed),
    {
        match self {
            Decoded::Borrowed(_) => true,
            Decoded::Owned(_) => false,
        }
    }

    /// A reference to the decoded value.
    pub fn get(&self) -> (r: &T)
        ensures
            *r == self.value(),
    {
        match self {
            Decoded::Borrowed(v) => v,
            Decoded::Owned(v) => v,
        }
    }
}

impl<'a, T: Copy> Decoded<'a, T> {
    /// The decoded value, owned.
    pub fn into_owned(self) -> (r: T)
        ensures
            r == self.value(),
    {
        match self {
            Decoded::Borrowed(v) => *v,
            Decoded::Owned(v) => v,
        }
    }
}

/// The codec for a plain fixed-layout value type.
///
/// A stateless, zero-size marker: it never holds a value of `T` and only
/// selects, at compile time, which encode and decode algorithm applies.
pub struct CowType<T>(core::marker::PhantomData<T>);

impl<T: PlainValue> CowType<T> {
    /// Encode a value as a byte view borrowed from the value's own memory.
    /// Never allocates and never fails; the view is exactly the value's
    /// representation, `T::size_spec()` bytes, and reading it back yields
    /// the value again.
    pub fn bytes_encode(item: &T) -> (r: &[u8])
        ensures
            r@ == item.repr(),
            r@.len() == T::size_spec(),
            T::read_repr(r@) == *item,
    {
        proof {
            item.lemma_repr();
        }
        item.raw_bytes()
    }

    /// Decode a byte view into a value. A view of exactly `T::size_spec()`
    /// bytes always decodes to the value its bytes represent, borrowed in
    /// place when the view's address satisfies `T`'s alignment and copied
    /// into an owned value otherwise; any other length is rejected with
    /// `LengthMismatch`.
    pub fn bytes_decode<'a>(bytes: &'a [u8]) -> (r: Result<Decoded<'a, T>, DecodeError>)
        ensures
            (bytes@.len() == T::size_spec() ==> (r matches Ok(d) && d.value() == T::read_repr(
                bytes@,
            ))),
            (bytes@.len() != T::size_spec() ==> (r matches Err(e) && e
                == DecodeError::LengthMismatch)),
    {
        match T::try_cast(bytes) {
            Ok(v) => Ok(Decoded::Borrowed(v)),
            Err(CastError::Misaligned) => Ok(Decoded::Owned(T::read_owned(bytes))),
            Err(CastError::SizeMismatch) => Err(DecodeError::LengthMismatch),
            Err(CastError::Unrepresentable) => Err(DecodeError::RepresentationError),
        }
    }
}

/// Round trip: a value's encoding has the type's size, and decoding it
/// yields the value again. The decoded value is determined by the bytes
/// alone, so this holds whether the view is read in place (aligned, the
/// borrowed result) or through the copy fallback (misaligned, the owned
/// result).
pub proof fn lemma_round_trip<T: PlainValue>(x: T)
    ensures
        x.repr().len() == T::size_spec(),
        T::read_repr(x.repr()) == x,
{
    x.lemma_repr();
}

/// Reverse round trip: every byte view of the right length is the encoding
/// of the value it decodes to, so encoding a decoded value restores the
/// original bytes.
pub proof fn lemma_decode_then_encode<T: PlainValue>(bytes: Seq<u8>)
    requires
        bytes.len() == T::size_spec(),
    ensures
        T::read_repr(bytes).repr() == bytes,
{
    T::lemma_read_repr(bytes);
}

} // verus!
