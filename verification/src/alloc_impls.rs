use vstd::prelude::*;
use vstd::utf8::{decode_utf8, valid_utf8};
use crate::api::{IntoValidated, MaybeValidOwned, Validated};
use crate::utf8::{string_from_utf8, Utf8Error};

verus! {

/// The outcome of consuming `bytes` into a `String`: valid exactly when the
/// bytes are UTF-8, the string then holding the decoded characters; otherwise
/// the bytes come back unchanged with the UTF-8 diagnostic for them.
pub open spec fn is_utf8_owned_outcome(bytes: Vec<u8>, r: MaybeValidOwned<String, Vec<u8>>) -> bool {
    &&& (r is Valid <==> valid_utf8(bytes@))
    &&& (r matches MaybeValidOwned::Valid(s) ==> s@ == decode_utf8(bytes@))
    &&& (r matches MaybeValidOwned::Invalid(p, e) ==> p@ == bytes@ && e.describes(bytes@))
}

impl Validated for String {
    type InvalidReason = Utf8Error;
}

impl IntoValidated<String> for Vec<u8> {
    open spec fn satisfies(self) -> bool {
        valid_utf8(self@)
    }

    fn into_validated(self) -> (r: MaybeValidOwned<String, Vec<u8>>)
        ensures
            is_utf8_owned_outcome(self, r),
    {
        match string_from_utf8(self) {
            Ok(v) => MaybeValidOwned::Valid(v),
            Err((bytes, err)) => {
                proof {
                    err.lemma_describes(bytes@);
                }
                MaybeValidOwned::Invalid(bytes, err)
            },
        }
    }
}

} // verus!
