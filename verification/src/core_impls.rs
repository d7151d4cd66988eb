use vstd::prelude::*;
use vstd::utf8::{decode_utf8, is_scalar, valid_utf8};
use vstd::string::StringSliceAdditionalSpecFns;
use crate::api::{AsValidated, IntoValidated, MaybeValidOwned, MaybeValidRef, Validated};
use crate::utf8::{str_from_utf8, Utf8Error};
use core::char::CharTryFromError;

verus! {

#[verifier::external_type_specification]
#[verifier::external_body]
pub struct ExCharTryFromError(CharTryFromError);

/// Returned on the invalid path when validating an integer as the
/// corresponding non-zero type.
#[derive(Debug, Clone, Copy, PartialEq, Eq)]
pub struct ZeroReason;

/// Why bytes are not a nul-terminated C string.
///
/// A borrowing check can report a specific position; an owning check may
/// only be able to report `Unspecified`.
#[derive(Debug, Clone, Copy, PartialEq, Eq)]
pub enum CStrInvalidReason {
    /// No nul terminator found within the byte slice.
    MissingNul,
    /// An interior nul byte was found at this position.
    InteriorNul { position: usize },
    /// Unspecified reason.
    Unspecified,
}

#[verifier::external_type_specification]
#[verifier::external_body]
pub struct ExCStr(core::ffi::CStr);

/// `bytes` holds exactly one nul byte, and it is the last one.
pub open spec fn is_nul_terminated_c_string(bytes: Seq<u8>) -> bool {
    &&& bytes.len() > 0
    &&& bytes.last() == 0
    &&& forall|i: int| 0 <= i < bytes.len() - 1 ==> bytes[i] != 0
}

/// `reason` is why `bytes` is not a nul-terminated C string: a missing nul
/// means the bytes hold no nul byte at all, and an interior nul names the
/// first nul byte, which lies before the last byte.
pub open spec fn explains_c_string_failure(reason: CStrInvalidReason, bytes: Seq<u8>) -> bool {
    match reason {
        CStrInvalidReason::MissingNul => forall|i: int| 0 <= i < bytes.len() ==> bytes[i] != 0,
        CStrInvalidReason::InteriorNul { position } => {
            &&& position + 1 < bytes.len()
            &&& bytes[position as int] == 0
            &&& forall|i: int| 0 <= i < position ==> bytes[i] != 0
        },
        CStrInvalidReason::Unspecified => false,
    }
}

/// Calls `CStr::from_bytes_with_nul` and turns its error into a
/// `CStrInvalidReason`, one variant for each. Claims that the result is `Ok`
/// exactly when the slice holds one nul byte, at its end; that
/// `InteriorNul { position }` names the first nul byte, which is not the last
/// byte; and that `NotNulTerminated` comes exactly when the slice holds no nul
/// byte. The standard library finds the first nul and decides by its place.
/// What the returned `CStr` holds is left unsaid.
#[verifier::external_body]
fn c_str_from_bytes_with_nul(bytes: &[u8]) -> (r: Result<&core::ffi::CStr, CStrInvalidReason>)
    ensures
        r is Ok <==> is_nul_terminated_c_string(bytes@),
        r matches Err(e) ==> explains_c_string_failure(e, bytes@),
{
    match core::ffi::CStr::from_bytes_with_nul(bytes) {
        Ok(c) => Ok(c),
        Err(core::ffi::FromBytesWithNulError::InteriorNul { position }) => Err(CStrInvalidReason::InteriorNul { position }),
        Err(core::ffi::FromBytesWithNulError::NotNulTerminated) => Err(CStrInvalidReason::MissingNul),
    }
}

/// The outcome of borrowing `bytes` as `CStr`: valid exactly when the only
/// nul byte is the last one; otherwise the precursor is `bytes` itself with a
/// true account of the failure.
pub open spec fn is_c_str_borrow_outcome(bytes: &[u8], r: MaybeValidRef<'_, core::ffi::CStr, [u8]>) -> bool {
    &&& (r is Valid <==> is_nul_terminated_c_string(bytes@))
    &&& (r matches MaybeValidRef::Invalid(p, e) ==> p == bytes && explains_c_string_failure(e, bytes@))
}

impl Validated for core::ffi::CStr {
    type InvalidReason = CStrInvalidReason;
}

impl AsValidated<core::ffi::CStr> for [u8] {
    open spec fn satisfies(&self) -> bool {
        is_nul_terminated_c_string(self@)
    }

    fn as_validated(&self) -> (r: MaybeValidRef<'_, core::ffi::CStr, [u8]>)
        ensures
            is_c_str_borrow_outcome(self, r),
    {
        match c_str_from_bytes_with_nul(self) {
            Ok(v) => MaybeValidRef::Valid(v),
            Err(reason) => MaybeValidRef::Invalid(self, reason),
        }
    }
}

/// The outcome of borrowing `bytes` as `str`: valid exactly when the bytes
/// are UTF-8, the view then holding the same bytes; otherwise the precursor
/// is `bytes` itself with the UTF-8 diagnostic for them.
pub open spec fn is_utf8_borrow_outcome(bytes: &[u8], r: MaybeValidRef<'_, str, [u8]>) -> bool {
    &&& (r is Valid <==> valid_utf8(bytes@))
    &&& (r matches MaybeValidRef::Valid(s) ==> s.spec_bytes() == bytes@ && s@ == decode_utf8(bytes@))
    &&& (r matches MaybeValidRef::Invalid(p, e) ==> p == bytes && e.describes(bytes@))
}

impl Validated for str {
    type InvalidReason = Utf8Error;
}

impl AsValidated<str> for [u8] {
    open spec fn satisfies(&self) -> bool {
        valid_utf8(self@)
    }

    fn as_validated(&self) -> (r: MaybeValidRef<'_, str, [u8]>)
        ensures
            is_utf8_borrow_outcome(self, r),
    {
        match str_from_utf8(self) {
            Ok(v) => {
                proof {
                    vstd::utf8::encode_utf8_decode_utf8(v@);
                }
                MaybeValidRef::Valid(v)
            },
            Err(e) => {
                proof {
                    e.lemma_describes(self@);
                }
                MaybeValidRef::Invalid(self, e)
            },
        }
    }
}

/// Calls `char::try_from(u32)`. Claims what the documentation says: the
/// result is `Ok` exactly when the value is a Unicode scalar value (at most
/// `0x10FFFF` and outside the surrogates `0xD800..=0xDFFF`), and the character
/// then has that value.
#[verifier::external_body]
fn char_try_from_u32(x: u32) -> (r: Result<char, CharTryFromError>)
    ensures
        r is Ok <==> is_scalar(x),
        r matches Ok(c) ==> c as u32 == x,
{
    char::try_from(x)
}

/// The outcome of consuming `x` into a `char`: valid exactly when `x` is a
/// Unicode scalar value, the character then having that value; otherwise `x`
/// comes back unchanged.
pub open spec fn is_char_outcome(x: u32, r: MaybeValidOwned<char, u32>) -> bool {
    &&& (r is Valid <==> is_scalar(x))
    &&& (r matches MaybeValidOwned::Valid(c) ==> c as u32 == x)
    &&& (r matches MaybeValidOwned::Invalid(p, _) ==> p == x)
}

impl Validated for char {
    type InvalidReason = CharTryFromError;
}

impl IntoValidated<char> for u32 {
    open spec fn satisfies(self) -> bool {
        is_scalar(self)
    }

    fn into_validated(self) -> (r: MaybeValidOwned<char, u32>)
        ensures
            is_char_outcome(self, r),
    {
        match char_try_from_u32(self) {
            Ok(v) => MaybeValidOwned::Valid(v),
            Err(e) => MaybeValidOwned::Invalid(self, e),
        }
    }
}

} // verus!
