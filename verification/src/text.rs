//! Text that crosses the boundary.
//!
//! Paths arrive as bytes and are accepted only when they are well-formed
//! UTF-8. Results leave as [`OwnedText`]: bytes without a zero among them, so
//! that one terminating zero can be appended and found again.

use vstd::prelude::*;
use vstd::utf8::{decode_utf8, valid_utf8};
use crate::outside::utf8_text;

verus! {

/// No byte of `bytes` is zero.
pub open spec fn zero_free(bytes: Seq<u8>) -> bool {
    forall|i: int| 0 <= i < bytes.len() ==> bytes[i] != 0
}

/// The position of the first zero byte, if there is one.
pub fn first_zero(bytes: &[u8]) -> (r: Option<usize>)
    ensures
        match r {
            Some(at) => {
                &&& at < bytes@.len()
                &&& bytes@[at as int] == 0
                &&& zero_free(bytes@.take(at as int))
            },
            None => zero_free(bytes@),
        },
{
    let mut i: usize = 0;
    while i < bytes.len()
        invariant
            i <= bytes@.len(),
            zero_free(bytes@.take(i as int)),
        decreases bytes@.len() - i,
    {
        if bytes[i] == 0 {
            return Some(i);
        }
        i += 1;
    }
    assert(bytes@.take(i as int) =~= bytes@);
    None
}

/// A text result owned by whoever holds it: bytes, none of them zero.
///
/// It is handed out once, by a successful conversion, and given back once, to
/// be released.
#[derive(Debug)]
pub struct OwnedText {
    bytes: Vec<u8>,
}

impl View for OwnedText {
    type V = Seq<u8>;

    closed spec fn view(&self) -> Seq<u8> {
        self.bytes@
    }
}

impl OwnedText {
    #[verifier::type_invariant]
    spec fn zero_free_inside(&self) -> bool {
        zero_free(self.bytes@)
    }

    /// Takes the bytes as text if none of them is zero, and says where the
    /// first zero stands otherwise.
    pub fn new(bytes: Vec<u8>) -> (r: Result<OwnedText, usize>)
        ensures
            match r {
                Ok(text) => text@ == bytes@ && zero_free(bytes@),
                Err(at) => {
                    &&& at < bytes@.len()
                    &&& bytes@[at as int] == 0
                    &&& zero_free(bytes@.take(at as int))
                },
            },
    {
        match first_zero(bytes.as_slice()) {
            Some(at) => Err(at),
            None => Ok(OwnedText { bytes }),
        }
    }

    /// The number of bytes, the terminator not counted.
    pub fn len(&self) -> (r: usize)
        ensures
            r == self@.len(),
    {
        self.bytes.len()
    }

    /// The bytes of the text.
    pub fn as_bytes(&self) -> (r: &[u8])
        ensures
            r@ == self@,
            zero_free(r@),
    {
        proof {
            use_type_invariant(self);
        }
        self.bytes.as_slice()
    }

    /// Gives the bytes up with the terminating zero appended: the only zero
    /// among them, and the last byte.
    pub fn into_bytes_with_nul(self) -> (r: Vec<u8>)
        ensures
            r@ == self@.push(0u8),
            zero_free(self@),
    {
        proof {
            use_type_invariant(&self);
        }
        let mut bytes = self.bytes;
        bytes.push(0);
        bytes
    }

    /// Gives the bytes up; the text is gone after this.
    pub fn into_bytes(self) -> (r: Vec<u8>)
        ensures
            r@ == self@,
            zero_free(r@),
    {
        proof {
            use_type_invariant(&self);
        }
        self.bytes
    }
}

/// Decodes a path handed over as bytes.
pub fn decode_path(bytes: &[u8]) -> (r: Option<String>)
    ensures
        r is Some <==> valid_utf8(bytes@),
        r matches Some(path) ==> path@ == decode_utf8(bytes@),
{
    match utf8_text(bytes) {
        Some(text) => Some(text.to_owned()),
        None => None,
    }
}

} // verus!
