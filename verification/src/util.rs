//! An optional byte that tasks share through an atomic.

use vstd::prelude::*;

use core::sync::atomic::AtomicU8;
use core::sync::atomic::Ordering;

verus! {

/// The raw value that stands for "no value".
pub const NONE_VALUE: u8 = 255;

/// The raw byte stored for an optional byte: the byte itself, or `NONE_VALUE` for none.
pub open spec fn encoded(val: Option<u8>) -> u8 {
    match val {
        Some(v) => v,
        None => NONE_VALUE,
    }
}

/// The optional byte that a raw byte stands for: none for `NONE_VALUE`, else the byte.
pub open spec fn decoded(raw: u8) -> Option<u8> {
    if raw == NONE_VALUE {
        None
    } else {
        Some(raw)
    }
}

/// The raw byte to store for `val`.
pub fn encode(val: Option<u8>) -> (r: u8)
    ensures
        r == encoded(val),
{
    match val {
        Some(v) => v,
        None => NONE_VALUE,
    }
}

/// The optional byte that `raw` stands for.
pub fn decode(raw: u8) -> (r: Option<u8>)
    ensures
        r == decoded(raw),
{
    if raw == NONE_VALUE {
        None
    } else {
        Some(raw)
    }
}

/// What is read back is what was stored, for every byte but `NONE_VALUE`, which reads back as
/// none; and every raw byte is stored again as itself.
pub proof fn lemma_decode_encode(val: Option<u8>, raw: u8)
    ensures
        val != Some(NONE_VALUE) ==> decoded(encoded(val)) == val,
        decoded(encoded(Some(NONE_VALUE))) == None::<u8>,
        encoded(decoded(raw)) == raw,
{
}

/// An `Option<u8>` in an atomic byte, shared between tasks.
pub struct OptionalAtomicU8 {
    inner: AtomicU8,
}

impl OptionalAtomicU8 {
    /// Holds `val` at first.
    pub fn new(val: Option<u8>) -> (r: Self) {
        let raw = encode(val);
        Self { inner: AtomicU8::new(raw) }
    }

    /// Reads the value. Whatever another task stored last, the result is never
    /// `Some(NONE_VALUE)`.
    pub fn load(&self) -> (r: Option<u8>)
        ensures
            r != Some(NONE_VALUE),
            exists|raw: u8| r == decoded(raw),
    {
        let val = self.inner.load(Ordering::SeqCst);
        let r = decode(val);
        assert(r == decoded(val));
        r
    }

    /// Stores `val`; `Some(NONE_VALUE)` is stored as none.
    pub fn store(&self, val: Option<u8>) {
        self.inner.store(encode(val), Ordering::SeqCst);
    }
}

} // verus!
