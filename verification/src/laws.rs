use vstd::prelude::*;
use vstd::utf8::valid_utf8;
use crate::alloc_impls::is_utf8_owned_outcome;
use crate::api::{AsValidated, IntoValidated, MaybeValidOwned, MaybeValidRef, Validated};
use crate::c_string::is_c_string_owned_outcome;
use crate::core_impls::{is_c_str_borrow_outcome, is_char_outcome, is_utf8_borrow_outcome};
use crate::c_string::CString;
use crate::core_impls::CStrInvalidReason;
use crate::utf8::{
    continues_lead, is_partial_character, lemma_longest_valid_prefix_within, lemma_utf8_failure_bounds,
    utf8_char_width, Utf8Error,
};

verus! {

/// A borrowed outcome is exactly one of valid and invalid: the validated
/// reference is present exactly when the precursor and reason are absent.
pub proof fn law_ref_outcome_is_valid_or_invalid<'a, V: Validated + ?Sized, P: ?Sized>(
    m: MaybeValidRef<'a, V, P>,
)
    ensures
        m.valid_part() is Some <==> m is Valid,
        m.invalid_part() is Some <==> m is Invalid,
        m.valid_part() is Some <==> m.invalid_part() is None,
        m is Valid <==> !(m is Invalid),
{
}

/// An owned outcome is exactly one of valid and invalid: the validated value
/// is present exactly when the precursor and reason are absent.
pub proof fn law_owned_outcome_is_valid_or_invalid<V: Validated, P>(m: MaybeValidOwned<V, P>)
    ensures
        m.valid_part() is Some <==> m is Valid,
        m.invalid_part() is Some <==> m is Invalid,
        m.valid_part() is Some <==> m.invalid_part() is None,
        m is Valid <==> !(m is Invalid),
{
}

/// Turning a borrowed outcome into a `Result` loses nothing: the outcome can
/// be rebuilt from it, and every such `Result` comes from an outcome.
pub proof fn law_ref_result_round_trip<'a, V: Validated + ?Sized, P: ?Sized>(
    m: MaybeValidRef<'a, V, P>,
    res: Result<&'a V, (&'a P, V::InvalidReason)>,
)
    ensures
        MaybeValidRef::<'a, V, P>::from_result_view(m.result_view()) == m,
        MaybeValidRef::<'a, V, P>::from_result_view(res).result_view() == res,
{
}

/// Turning an owned outcome into a `Result` loses nothing: the outcome can be
/// rebuilt from it, and every such `Result` comes from an outcome.
pub proof fn law_owned_result_round_trip<V: Validated, P>(
    m: MaybeValidOwned<V, P>,
    res: Result<V, (P, V::InvalidReason)>,
)
    ensures
        MaybeValidOwned::<V, P>::from_result_view(m.result_view()) == m,
        MaybeValidOwned::<V, P>::from_result_view(res).result_view() == res,
{
}

/// Every borrowing conversion classifies deterministically: two results of
/// `as_validated` on equal values are both valid or both invalid, and on the
/// invalid path both hand back that value as the precursor.
pub proof fn law_as_validated_is_deterministic<'a, V: Validated + ?Sized, P: AsValidated<V> + ?Sized>(
    x: &'a P,
    y: &'a P,
    r1: MaybeValidRef<'a, V, P>,
    r2: MaybeValidRef<'a, V, P>,
)
    requires
        x == y,
        call_ensures(<P as AsValidated<V>>::as_validated, (x,), r1),
        call_ensures(<P as AsValidated<V>>::as_validated, (y,), r2),
    ensures
        r1 is Valid <==> r2 is Valid,
        r1 matches MaybeValidRef::Invalid(p1, _) ==> (r2 matches MaybeValidRef::Invalid(p2, _) && p1 == p2),
{
}

/// Every owning conversion classifies deterministically: two results of
/// `into_validated` on equal values are both valid or both invalid, and on the
/// invalid path both hand back that value unchanged.
pub proof fn law_into_validated_is_deterministic<V: Validated, P: IntoValidated<V>>(
    x: P,
    y: P,
    r1: MaybeValidOwned<V, P>,
    r2: MaybeValidOwned<V, P>,
)
    requires
        x == y,
        call_ensures(<P as IntoValidated<V>>::into_validated, (x,), r1),
        call_ensures(<P as IntoValidated<V>>::into_validated, (y,), r2),
    ensures
        r1 is Valid <==> r2 is Valid,
        r1 matches MaybeValidOwned::Invalid(p1, _) ==> (r2 matches MaybeValidOwned::Invalid(p2, _) && p1 == p2),
{
}

/// Borrowing bytes as `str` classifies them deterministically: two outcomes
/// for the same bytes agree on validity, on the decoded characters and on
/// the reason.
pub proof fn law_utf8_borrow_is_deterministic(
    bytes: &[u8],
    r1: MaybeValidRef<'_, str, [u8]>,
    r2: MaybeValidRef<'_, str, [u8]>,
)
    requires
        is_utf8_borrow_outcome(bytes, r1),
        is_utf8_borrow_outcome(bytes, r2),
    ensures
        r1 is Valid <==> r2 is Valid,
        r1 matches MaybeValidRef::Valid(s1) ==> (r2 matches MaybeValidRef::Valid(s2) && s1@ == s2@),
        r1 matches MaybeValidRef::Invalid(p1, e1) ==> (r2 matches MaybeValidRef::Invalid(p2, e2) && p1 == p2 && e1 == e2),
{
    if let (MaybeValidRef::Invalid(_, e1), MaybeValidRef::Invalid(_, e2)) = (r1, r2) {
        e1.lemma_describes_unique(e2, bytes@);
    }
}

/// Borrowing bytes as `str` and consuming the same bytes into a `String`
/// agree: both are valid or both invalid, they decode to the same characters,
/// and they report the same reason, which is why the two targets share one
/// reason type.
pub proof fn law_utf8_borrowed_and_owned_agree(
    bytes: &[u8],
    v: Vec<u8>,
    borrowed: MaybeValidRef<'_, str, [u8]>,
    owned: MaybeValidOwned<String, Vec<u8>>,
)
    requires
        v@ == bytes@,
        is_utf8_borrow_outcome(bytes, borrowed),
        is_utf8_owned_outcome(v, owned),
    ensures
        borrowed is Valid <==> owned is Valid,
        borrowed matches MaybeValidRef::Valid(s) ==> (owned matches MaybeValidOwned::Valid(t) && s@ == t@),
        borrowed matches MaybeValidRef::Invalid(p, e1) ==> (owned matches MaybeValidOwned::Invalid(q, e2) && p@ == q@ && e1 == e2),
{
    if let (MaybeValidRef::Invalid(_, e1), MaybeValidOwned::Invalid(_, e2)) = (borrowed, owned) {
        e1.lemma_describes_unique(e2, bytes@);
    }
}

/// Borrowing bytes as `CStr` and consuming the same bytes into a `CString`
/// agree: both are valid or both invalid, the owned string then holds those
/// bytes, and both hand back the same bytes as the precursor.
pub proof fn law_c_string_borrowed_and_owned_agree(
    bytes: &[u8],
    v: Vec<u8>,
    borrowed: MaybeValidRef<'_, core::ffi::CStr, [u8]>,
    owned: MaybeValidOwned<CString, Vec<u8>>,
)
    requires
        v@ == bytes@,
        is_c_str_borrow_outcome(bytes, borrowed),
        is_c_string_owned_outcome(v, owned),
    ensures
        borrowed is Valid <==> owned is Valid,
        owned matches MaybeValidOwned::Valid(c) ==> c.spec_bytes_with_nul() == bytes@,
        borrowed matches MaybeValidRef::Invalid(p, _) ==> (owned matches MaybeValidOwned::Invalid(q, _) && p@ == q@),
{
}

/// On the invalid path of borrowing bytes as `CStr`, the reason names the
/// first nul byte when there is one, and is `MissingNul` exactly when the
/// bytes hold no nul byte at all; it is never `Unspecified`.
pub proof fn law_c_str_reason_names_first_nul(
    bytes: &[u8],
    r: MaybeValidRef<'_, core::ffi::CStr, [u8]>,
)
    requires
        call_ensures(<[u8] as AsValidated<core::ffi::CStr>>::as_validated, (bytes,), r),
    ensures
        r matches MaybeValidRef::Invalid(_, reason) ==> (
            reason == CStrInvalidReason::MissingNul <==> (forall|i: int| 0 <= i < bytes@.len() ==> bytes@[i] != 0)),
        r matches MaybeValidRef::Invalid(_, reason) ==> reason != CStrInvalidReason::Unspecified,
        forall|k: int|
            #![trigger bytes@[k]]
            (r is Invalid && 0 <= k < bytes@.len() && bytes@[k] == 0
                && (forall|j: int| 0 <= j < k ==> bytes@[j] != 0))
                ==> (r matches MaybeValidRef::Invalid(_, reason)
                    && reason == CStrInvalidReason::InteriorNul { position: k as usize }),
{
    if let MaybeValidRef::Invalid(_, reason) = r {
        assert forall|k: int|
            #![trigger bytes@[k]]
            (0 <= k < bytes@.len() && bytes@[k] == 0 && (forall|j: int| 0 <= j < k ==> bytes@[j] != 0))
                implies reason == CStrInvalidReason::InteriorNul { position: k as usize } by {
            if let CStrInvalidReason::InteriorNul { position } = reason {
                if position < k {
                    assert(bytes@[position as int] == 0);
                } else if position > k {
                    assert(bytes@[k] != 0);
                }
            } else {
                assert(bytes@[k] == 0);
            }
        }
    }
}

/// On the invalid path the UTF-8 reason marks the end of the longest valid
/// prefix: it lies before the end of the input, the bytes before it are valid
/// UTF-8, and no longer prefix is.
pub proof fn law_utf8_reason_marks_longest_valid_prefix(bytes: Seq<u8>, e: Utf8Error)
    requires
        !valid_utf8(bytes),
        e.describes(bytes),
    ensures
        e.spec_valid_up_to() < bytes.len(),
        valid_utf8(bytes.take(e.spec_valid_up_to() as int)),
        forall|k: int| e.spec_valid_up_to() < k <= bytes.len() ==> !valid_utf8(#[trigger] bytes.take(k)),
{
    lemma_longest_valid_prefix_within(bytes, bytes.len());
    assert(bytes.take(bytes.len() as int) =~= bytes);
}

/// On the invalid path of borrowing bytes as `str`, `error_len()` measures the
/// invalid sequence that starts at `valid_up_to()`: a byte that cannot lead a
/// character gives `Some(1)`; a lead byte followed by `n - 1` bytes that
/// continue it and then a byte that does not gives `Some(n)`; and `None`
/// comes exactly when the input ends inside an unfinished character.
pub proof fn law_utf8_error_len_measures_invalid_sequence(
    bytes: &[u8],
    r: MaybeValidRef<'_, str, [u8]>,
    e: Utf8Error,
    at: usize,
    len: Option<usize>,
)
    requires
        call_ensures(<[u8] as AsValidated<str>>::as_validated, (bytes,), r),
        r matches MaybeValidRef::Invalid(_, x) && x == e,
        call_ensures(Utf8Error::valid_up_to, (&e,), at),
        call_ensures(Utf8Error::error_len, (&e,), len),
    ensures
        at < bytes@.len(),
        utf8_char_width(bytes@[at as int]) < 2 ==> len == Some(1usize),
        forall|n: int|
            is_partial_character(bytes@.skip(at as int), n) && n < bytes@.len() - at
                && !continues_lead(bytes@.skip(at as int), n) ==> len == Some(n as usize),
        len is None <==> is_partial_character(bytes@.skip(at as int), bytes@.len() - at),
{
    lemma_utf8_failure_bounds(bytes@);
    let rest = bytes@.skip(at as int);
    assert(rest[0] == bytes@[at as int]);
    if rest.len() >= 2 {
        assert(continues_lead(rest, 1) == crate::utf8::second_byte_fits(rest[0], rest[1]));
    }
    if rest.len() >= 3 {
        assert(continues_lead(rest, 2) == crate::utf8::is_continuation(rest[2]));
    }
}

/// Every character survives the trip through its code point: validating
/// `c as u32` as a `char` gives back `c`.
pub proof fn law_char_round_trip(c: char, r: MaybeValidOwned<char, u32>)
    requires
        is_char_outcome(c as u32, r),
    ensures
        r == MaybeValidOwned::<char, u32>::Valid(c),
{
    vstd::utf8::char_is_scalar(c);
    if let MaybeValidOwned::Valid(d) = r {
        vstd::utf8::char_u32_cast(c, c as u32);
        vstd::utf8::char_u32_cast(d, c as u32);
    }
}

} // verus!
