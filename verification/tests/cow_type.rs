use heed_types::codec::{CowType, DecodeError, Decoded};
use heed_types::plain::ZeroSized;

/// Encoding a 4-byte unsigned integer yields its 4 raw bytes in native
/// layout (little-endian on the machines these tests run on).
#[test]
fn encode_u32_yields_native_bytes() {
    let x: u32 = 0x11223344;
    let bytes = CowType::<u32>::bytes_encode(&x);
    assert_eq!(bytes.len(), 4);
    assert_eq!(bytes, &x.to_ne_bytes());
    assert_eq!(bytes, &[0x44, 0x33, 0x22, 0x11]);
}

/// Encoding the same value twice yields byte views with identical content.
#[test]
fn encode_is_idempotent() {
    let x: u64 = 0x0102030405060708;
    let first = CowType::<u64>::bytes_encode(&x).to_vec();
    let second = CowType::<u64>::bytes_encode(&x).to_vec();
    assert_eq!(first, second);

    let y: u32 = 7;
    assert_eq!(
        CowType::<u32>::bytes_encode(&y),
        CowType::<u32>::bytes_encode(&y)
    );
}

/// Decoding the encoding of a value at an aligned address yields the value
/// again, borrowed in place with no copy.
#[test]
fn round_trip_aligned_u32_borrows() {
    let x: u32 = 0x11223344;
    let bytes = CowType::<u32>::bytes_encode(&x);
    let decoded = CowType::<u32>::bytes_decode(bytes).unwrap();
    assert!(decoded.is_borrowed());
    assert!(matches!(decoded, Decoded::Borrowed(_)));
    assert_eq!(*decoded.get(), 0x11223344);
    assert_eq!(decoded.into_owned(), x);
}

/// The aligned round trip holds for 8-byte values too.
#[test]
fn round_trip_aligned_u64_borrows() {
    let x: u64 = 0x1122334455667788;
    let bytes = CowType::<u64>::bytes_encode(&x);
    let decoded = CowType::<u64>::bytes_decode(bytes).unwrap();
    assert!(decoded.is_borrowed());
    assert_eq!(*decoded.get(), x);
}

/// Decoding the same 4 bytes from a deliberately misaligned address yields
/// the same value through the copy fallback: an owned result, one copy.
#[test]
fn round_trip_misaligned_u32_copies() {
    let x: u32 = 0x11223344;
    // A [u64; 2] is 8-byte aligned, so the byte at offset 1 is misaligned
    // for a 4-byte-aligned u32.
    let mut buf = [0u64; 2];
    let bytes = bytemuck::bytes_of_mut(&mut buf);
    let encoded: [u8; 4] = x.to_ne_bytes();
    bytes[1..5].copy_from_slice(&encoded);
    let decoded = CowType::<u32>::bytes_decode(&bytes[1..5]).unwrap();
    assert!(!decoded.is_borrowed());
    assert!(matches!(decoded, Decoded::Owned(_)));
    assert_eq!(*decoded.get(), x);
    assert_eq!(decoded.into_owned(), x);
}

/// A byte view of the right length whose address is off by 4 for an 8-byte
/// aligned type exercises the alignment fallback specifically: it is not
/// misclassified as an error.
#[test]
fn misaligned_u64_uses_copy_fallback_not_error() {
    let x: u64 = 0x1122334455667788;
    // A [u64; 2] is 8-byte aligned, so offset 4 violates u64's alignment
    // while leaving length and contents intact.
    let mut buf = [0u64; 2];
    let bytes = bytemuck::bytes_of_mut(&mut buf);
    let encoded: [u8; 8] = x.to_ne_bytes();
    bytes[4..12].copy_from_slice(&encoded);
    let decoded = CowType::<u64>::bytes_decode(&bytes[4..12]).unwrap();
    assert!(matches!(decoded, Decoded::Owned(_)));
    assert_eq!(*decoded.get(), x);
}

/// Decoding a byte view one byte shorter or longer than the type's size
/// fails with a length mismatch.
#[test]
fn decode_wrong_length_u32_fails() {
    let bytes = [0u8; 16];
    let short = CowType::<u32>::bytes_decode(&bytes[..3]);
    assert_eq!(short.unwrap_err(), DecodeError::LengthMismatch);
    let long = CowType::<u32>::bytes_decode(&bytes[..5]);
    assert_eq!(long.unwrap_err(), DecodeError::LengthMismatch);
}

/// Length enforcement holds for 8-byte values too.
#[test]
fn decode_wrong_length_u64_fails() {
    let bytes = [0u8; 16];
    let short = CowType::<u64>::bytes_decode(&bytes[..7]);
    assert_eq!(short.unwrap_err(), DecodeError::LengthMismatch);
    let long = CowType::<u64>::bytes_decode(&bytes[..9]);
    assert_eq!(long.unwrap_err(), DecodeError::LengthMismatch);
}

/// Decoding reads the value from the bytes themselves, wherever they live:
/// a buffer built by hand decodes to the value those bytes spell.
#[test]
fn decode_reads_the_byte_contents() {
    let x: u32 = 0xCAFEBABE;
    let mut buf = [0u32; 1];
    let bytes = bytemuck::bytes_of_mut(&mut buf);
    bytes.copy_from_slice(&x.to_ne_bytes());
    let decoded = CowType::<u32>::bytes_decode(bytes).unwrap();
    assert_eq!(*decoded.get(), x);
}

/// Round trips hold across a spread of values, including the extremes.
#[test]
fn round_trip_many_values() {
    for &x in &[0u32, 1, 0x80000000, u32::MAX] {
        let decoded = CowType::<u32>::bytes_decode(CowType::<u32>::bytes_encode(&x)).unwrap();
        assert_eq!(*decoded.get(), x);
    }
    for &x in &[0u64, 1, 0x8000000000000000, u64::MAX] {
        let decoded = CowType::<u64>::bytes_decode(CowType::<u64>::bytes_encode(&x)).unwrap();
        assert_eq!(*decoded.get(), x);
    }
}

/// A zero-size value encodes to the empty byte view, the empty byte view
/// decodes back to it, and any non-empty view is a length mismatch.
#[test]
fn zero_size_value_round_trip() {
    let bytes = CowType::<ZeroSized>::bytes_encode(&ZeroSized);
    assert_eq!(bytes.len(), 0);
    let decoded = CowType::<ZeroSized>::bytes_decode(bytes).unwrap();
    assert_eq!(*decoded.get(), ZeroSized);
    let err = CowType::<ZeroSized>::bytes_decode(&[0u8]);
    assert_eq!(err.unwrap_err(), DecodeError::LengthMismatch);
}
