//! A typed byte-codec layer for fixed-layout values.
//!
//! The codec turns a value reference into a borrowed byte view without
//! allocating, and turns a byte view back into a value, borrowing in place
//! when the view's address satisfies the value type's alignment and falling
//! back to a single owned copy when it does not. A byte view whose length
//! differs from the value type's size is rejected with a typed error.
//!
//! Value types opt into the codec through the [`plain::PlainValue`]
//! capability: every byte pattern of the right length is a legal value, and
//! every value can be read back from its own bytes.

pub mod codec;
pub mod plain;
