//! The plain fixed-layout value capability.
//!
//! A plain fixed-layout value has a statically known size and alignment, no
//! invariant tied to padding bytes, and no bit pattern that is invalid for
//! the type. Such a value can be read as raw bytes, reinterpreted in place
//! from a correctly placed byte view, or rebuilt by copying a byte view of
//! the right length into a fresh, correctly aligned location.

use vstd::bytes::{
    lemma_auto_spec_u32_to_from_le_bytes, lemma_auto_spec_u64_to_from_le_bytes,
    spec_u32_from_le_bytes, spec_u32_to_le_bytes, spec_u64_from_le_bytes, spec_u64_to_le_bytes,
};
use vstd::prelude::*;

verus! {

/// Why a direct in-place reinterpretation of a byte view failed.
#[derive(Clone, Copy, Debug, PartialEq, Eq)]
pub enum CastError {
    /// The byte view's length is not the value type's size.
    SizeMismatch,
    /// Length and contents fit, but the view's starting address does not
    /// satisfy the value type's alignment. Recoverable by copying.
    Misaligned,
    /// Any other representation incompatibility. Never produced for plain
    /// fixed-layout values, for which every byte pattern is legal.
    Unrepresentable,
}

/// A value type the codec can handle: fixed size, and a bijection between
/// values and byte patterns of that size.
///
/// `repr` and `read_repr` are the mathematical model of the type's in-memory
/// representation; the executable methods are proved, or trusted where they
/// wrap an outside cast, to agree with that model.
pub trait PlainValue: Sized + Copy {
    /// The value's byte representation.
    spec fn repr(self) -> Seq<u8>;

    /// The value that a byte sequence of the right length represents.
    spec fn read_repr(bytes: Seq<u8>) -> Self;

    /// The type's size in bytes.
    spec fn size_spec() -> nat;

    /// A value's representation has the type's size, and reading it back
    /// yields the value: representations determine values.
    proof fn lemma_repr(self)
        ensures
            self.repr().len() == Self::size_spec(),
            Self::read_repr(self.repr()) == self;

    /// Every byte pattern of the right length is the representation of the
    /// value it reads as: all byte patterns are legal.
    proof fn lemma_read_repr(bytes: Seq<u8>)
        requires
            bytes.len() == Self::size_spec(),
        ensures
            Self::read_repr(bytes).repr() == bytes;

    /// The value's raw bytes, borrowed from the value's own memory.
    fn raw_bytes(&self) -> (r: &[u8])
        ensures
            r@ == self.repr(),
    ;

    /// Reinterpret a byte view in place as a reference to a value. Fails
    /// with `SizeMismatch` exactly when the view's length is wrong, and
    /// otherwise only with `Misaligned`, when the view's starting address
    /// does not satisfy the type's alignment.
    fn try_cast(bytes: &[u8]) -> (r: Result<&Self, CastError>)
        ensures
            (r matches Ok(v) ==> bytes@.len() == Self::size_spec() && *v == Self::read_repr(
                bytes@,
            )),
            (r matches Err(e) ==> if bytes@.len() == Self::size_spec() {
                e == CastError::Misaligned
            } else {
                e == CastError::SizeMismatch
            }),
    ;

    /// Materialize an owned value whose representation is the byte view's
    /// contents, independent of the view's placement.
    fn read_owned(bytes: &[u8]) -> (r: Self)
        requires
            bytes@.len() == Self::size_spec(),
        ensures
            r == Self::read_repr(bytes@),
    ;
}

/// Relies on `bytemuck::bytes_of`: the returned slice is the value's
/// in-memory representation, `size_of::<u32>()` bytes long. On the
/// little-endian targets this crate supports, those are the value's
/// little-endian bytes.
#[verifier::external_body]
fn u32_raw_bytes(value: &u32) -> (r: &[u8])
    ensures
        r@ == spec_u32_to_le_bytes(*value),
{
    bytemuck::bytes_of(value)
}

/// Relies on `bytemuck::try_from_bytes`: it returns `SizeMismatch` when the
/// view's length is not `size_of::<u32>()`, the alignment error when only
/// the view's starting address is not 4-byte aligned, and otherwise a
/// reference to the `u32` whose bytes the view holds (little-endian on the
/// targets this crate supports).
#[verifier::external_body]
fn u32_try_cast(bytes: &[u8]) -> (r: Result<&u32, CastError>)
    ensures
        (r matches Ok(v) ==> bytes@.len() == 4 && *v == spec_u32_from_le_bytes(bytes@)),
        (r matches Err(e) ==> if bytes@.len() == 4 {
            e == CastError::Misaligned
        } else {
            e == CastError::SizeMismatch
        }),
{
    match bytemuck::try_from_bytes::<u32>(bytes) {
        Ok(v) => Ok(v),
        Err(bytemuck::PodCastError::SizeMismatch) => Err(CastError::SizeMismatch),
        Err(bytemuck::PodCastError::TargetAlignmentGreaterAndInputNotAligned) => Err(
            CastError::Misaligned,
        ),
        Err(bytemuck::PodCastError::OutputSliceWouldHaveSlop) => Err(CastError::Unrepresentable),
        Err(bytemuck::PodCastError::AlignmentMismatch) => Err(CastError::Unrepresentable),
    }
}

/// Relies on `bytemuck::Zeroable::zeroed` and `bytemuck::bytes_of_mut`: a
/// fresh zeroed `u32` is overwritten byte for byte with the view's contents,
/// so the result is the `u32` those bytes represent (little-endian on the
/// targets this crate supports).
#[verifier::external_body]
fn u32_read_owned(bytes: &[u8]) -> (r: u32)
    requires
        bytes@.len() == 4,
    ensures
        r == spec_u32_from_le_bytes(bytes@),
{
    let mut value: u32 = bytemuck::Zeroable::zeroed();
    bytemuck::bytes_of_mut(&mut value).copy_from_slice(bytes);
    value
}

impl PlainValue for u32 {
    open spec fn repr(self) -> Seq<u8> {
        spec_u32_to_le_bytes(self)
    }

    open spec fn read_repr(bytes: Seq<u8>) -> u32 {
        spec_u32_from_le_bytes(bytes)
    }

    open spec fn size_spec() -> nat {
        4
    }

    proof fn lemma_repr(self) {
        lemma_auto_spec_u32_to_from_le_bytes();
        assert(spec_u32_to_le_bytes(self).len() == 4);
    }

    proof fn lemma_read_repr(bytes: Seq<u8>) {
        lemma_auto_spec_u32_to_from_le_bytes();
    }

    fn raw_bytes(&self) -> (r: &[u8]) {
        u32_raw_bytes(self)
    }

    fn try_cast(bytes: &[u8]) -> (r: Result<&u32, CastError>) {
        u32_try_cast(bytes)
    }

    fn read_owned(bytes: &[u8]) -> (r: u32) {
        u32_read_owned(bytes)
    }
}

/// Relies on `bytemuck::bytes_of`: the returned slice is the value's
/// in-memory representation, `size_of::<u64>()` bytes long. On the
/// little-endian targets this crate supports, those are the value's
/// little-endian bytes.
#[verifier::external_body]
fn u64_raw_bytes(value: &u64) -> (r: &[u8])
    ensures
        r@ == spec_u64_to_le_bytes(*value),
{
    bytemuck::bytes_of(value)
}

/// Relies on `bytemuck::try_from_bytes`: it returns `SizeMismatch` when the
/// view's length is not `size_of::<u64>()`, the alignment error when only
/// the view's starting address is not 8-byte aligned, and otherwise a
/// reference to the `u64` whose bytes the view holds (little-endian on the
/// targets this crate supports).
#[verifier::external_body]
fn u64_try_cast(bytes: &[u8]) -> (r: Result<&u64, CastError>)
    ensures
        (r matches Ok(v) ==> bytes@.len() == 8 && *v == spec_u64_from_le_bytes(bytes@)),
        (r matches Err(e) ==> if bytes@.len() == 8 {
            e == CastError::Misaligned
        } else {
            e == CastError::SizeMismatch
        }),
{
    match bytemuck::try_from_bytes::<u64>(bytes) {
        Ok(v) => Ok(v),
        Err(bytemuck::PodCastError::SizeMismatch) => Err(CastError::SizeMismatch),
        Err(bytemuck::PodCastError::TargetAlignmentGreaterAndInputNotAligned) => Err(
            CastError::Misaligned,
        ),
        Err(bytemuck::PodCastError::OutputSliceWouldHaveSlop) => Err(CastError::Unrepresentable),
        Err(bytemuck::PodCastError::AlignmentMismatch) => Err(CastError::Unrepresentable),
    }
}

/// Relies on `bytemuck::Zeroable::zeroed` and `bytemuck::bytes_of_mut`: a
/// fresh zeroed `u64` is overwritten byte for byte with the view's contents,
/// so the result is the `u64` those bytes represent (little-endian on the
/// targets this crate supports).
#[verifier::external_body]
fn u64_read_owned(bytes: &[u8]) -> (r: u64)
    requires
        bytes@.len() == 8,
    ensures
        r == spec_u64_from_le_bytes(bytes@),
{
    let mut value: u64 = bytemuck::Zeroable::zeroed();
    bytemuck::bytes_of_mut(&mut value).copy_from_slice(bytes);
    value
}

impl PlainValue for u64 {
    open spec fn repr(self) -> Seq<u8> {
        spec_u64_to_le_bytes(self)
    }

    open spec fn read_repr(bytes: Seq<u8>) -> u64 {
        spec_u64_from_le_bytes(bytes)
    }

    open spec fn size_spec() -> nat {
        8
    }

    proof fn lemma_repr(self) {
        lemma_auto_spec_u64_to_from_le_bytes();
        assert(spec_u64_to_le_bytes(self).len() == 8);
    }

    proof fn lemma_read_repr(bytes: Seq<u8>) {
        lemma_auto_spec_u64_to_from_le_bytes();
    }

    fn raw_bytes(&self) -> (r: &[u8]) {
        u64_raw_bytes(self)
    }

    fn try_cast(bytes: &[u8]) -> (r: Result<&u64, CastError>) {
        u64_try_cast(bytes)
    }

    fn read_owned(bytes: &[u8]) -> (r: u64) {
        u64_read_owned(bytes)
    }
}

/// A zero-size plain value, settling the edge case where the value type's
/// size is zero: encoding yields the empty byte view, and exactly the empty
/// byte view decodes, trivially, to the value.
#[derive(Clone, Copy, Debug, PartialEq, Eq, Structural)]
pub struct ZeroSized;

impl PlainValue for ZeroSized {
    open spec fn repr(self) -> Seq<u8> {
        Seq::empty()
    }

    open spec fn read_repr(bytes: Seq<u8>) -> ZeroSized {
        ZeroSized
    }

    open spec fn size_spec() -> nat {
        0
    }

    proof fn lemma_repr(self) {
    }

    proof fn lemma_read_repr(bytes: Seq<u8>) {
        assert(bytes =~= Seq::<u8>::empty());
    }

    fn raw_bytes(&self) -> (r: &[u8]) {
        let r: &[u8] = &[];
        proof {
            assert(r@ =~= Seq::<u8>::empty());
        }
        r
    }

    fn try_cast(bytes: &[u8]) -> (r: Result<&ZeroSized, CastError>) {
        if bytes.len() == 0 {
            Ok(&ZeroSized)
        } else {
            Err(CastError::SizeMismatch)
        }
    }

    fn read_owned(_bytes: &[u8]) -> (r: ZeroSized) {
        ZeroSized
    }
}

} // verus!
