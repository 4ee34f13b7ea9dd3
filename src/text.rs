//! Conversion of host text into the null-terminated byte form that the
//! runtime's string and symbol constructors read.
use vstd::prelude::*;
use vstd::string::*;

verus! {

/// Text that cannot be handed to the runtime.
#[derive(Clone, Copy, Debug, PartialEq, Eq, Structural)]
pub enum TextError {
    /// The text holds a null byte, which would end it early.
    InvalidText,
}

/// The terminated form of `bytes`: the bytes, then one null byte.
pub open spec fn terminated(bytes: Seq<u8>) -> Seq<u8> {
    bytes.push(0u8)
}

/// Does the text hold a null byte?
pub open spec fn has_null(bytes: Seq<u8>) -> bool {
    exists|i: int| 0 <= i < bytes.len() && bytes[i] == 0u8
}

/// The UTF-8 bytes of `s` followed by a terminating null byte, or
/// `InvalidText` exactly when `s` itself holds a null byte.
pub fn c_text(s: &str) -> (r: Result<Vec<u8>, TextError>)
    ensures
        r is Err <==> has_null(s.spec_bytes()),
        r is Err ==> r == Err::<Vec<u8>, TextError>(TextError::InvalidText),
        r matches Ok(v) ==> v@ == terminated(s.spec_bytes()),
{
    let bytes = s.as_bytes();
    let mut out: Vec<u8> = Vec::new();
    let mut i: usize = 0;
    while i < bytes.len()
        invariant
            bytes@ == s.spec_bytes(),
            i <= bytes@.len(),
            out@ == bytes@.subrange(0, i as int),
            forall|j: int| 0 <= j < i ==> bytes@[j] != 0u8,
        decreases bytes@.len() - i,
    {
        if bytes[i] == 0u8 {
            return Err(TextError::InvalidText);
        }
        out.push(bytes[i]);
        i = i + 1;
        assert(out@ == bytes@.subrange(0, i as int));
    }
    out.push(0u8);
    assert(bytes@.subrange(0, i as int) == bytes@);
    Ok(out)
}

} // verus!
