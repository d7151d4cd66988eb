use vstd::prelude::*;
use crate::api::{IntoValidated, MaybeValidOwned, Validated};
use crate::core_impls::{is_nul_terminated_c_string, CStrInvalidReason};

verus! {

/// An owned C string: bytes that end in the only nul byte they hold.
#[derive(Debug, PartialEq, Eq, Hash)]
pub struct CString {
    bytes: Vec<u8>,
}

impl CString {
    #[verifier::type_invariant]
    spec fn is_well_formed(self) -> bool {
        is_nul_terminated_c_string(self.bytes@)
    }

    /// The bytes of the string, terminating nul included.
    pub closed spec fn spec_bytes_with_nul(self) -> Seq<u8> {
        self.bytes@
    }

    /// Takes `v` as a C string when its only nul byte is its last element;
    /// otherwise hands `v` back unchanged.
    pub fn from_vec_with_nul(v: Vec<u8>) -> (r: Result<CString, Vec<u8>>)
        ensures
            r is Ok <==> is_nul_terminated_c_string(v@),
            r matches Ok(c) ==> c.spec_bytes_with_nul() == v@,
            r matches Err(b) ==> b == v,
    {
        let n = v.len();
        if n == 0 || v[n - 1] != 0 {
            return Err(v);
        }
        let mut i: usize = 0;
        while i < n - 1
            invariant
                n == v@.len(),
                n > 0,
                v@[n - 1] == 0,
                i <= n - 1,
                forall|j: int| 0 <= j < i ==> v@[j] != 0,
            decreases n - 1 - i,
        {
            if v[i] == 0 {
                return Err(v);
            }
            i = i + 1;
        }
        Ok(CString { bytes: v })
    }

    /// The bytes of the string, terminating nul included.
    pub fn to_bytes_with_nul(&self) -> (r: &[u8])
        ensures
            r@ == self.spec_bytes_with_nul(),
            is_nul_terminated_c_string(r@),
    {
        proof {
            use_type_invariant(self);
        }
        self.bytes.as_slice()
    }
}

/// The outcome of consuming `bytes` into a `CString`: valid exactly when the
/// only nul byte is the last one, the string then holding these bytes;
/// otherwise the bytes come back unchanged with `Unspecified`.
pub open spec fn is_c_string_owned_outcome(bytes: Vec<u8>, r: MaybeValidOwned<CString, Vec<u8>>) -> bool {
    &&& (r is Valid <==> is_nul_terminated_c_string(bytes@))
    &&& (r matches MaybeValidOwned::Valid(c) ==> c.spec_bytes_with_nul() == bytes@)
    &&& (r matches MaybeValidOwned::Invalid(p, reason) ==> p == bytes && reason == CStrInvalidReason::Unspecified)
}

impl Validated for CString {
    type InvalidReason = CStrInvalidReason;
}

impl IntoValidated<CString> for Vec<u8> {
    open spec fn satisfies(self) -> bool {
        is_nul_terminated_c_string(self@)
    }

    fn into_validated(self) -> (r: MaybeValidOwned<CString, Vec<u8>>)
        ensures
            is_c_string_owned_outcome(self, r),
    {
        match CString::from_vec_with_nul(self) {
            Ok(c) => MaybeValidOwned::Valid(c),
            Err(bytes) => MaybeValidOwned::Invalid(bytes, CStrInvalidReason::Unspecified),
        }
    }
}

} // verus!
