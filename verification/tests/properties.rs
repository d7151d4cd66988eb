use maybe_valid::{
    AsValidated, CStrInvalidReason, CString, IntoValidated, MaybeValidOwned, MaybeValidRef,
    NonZeroI8, NonZeroIsize, NonZeroU128, NonZeroU32, NonZeroU8, Utf8Error, ZeroReason,
};

fn borrow_utf8(bytes: &[u8]) -> MaybeValidRef<'_, str, [u8]> {
    bytes.as_validated()
}

fn own_utf8(bytes: &[u8]) -> MaybeValidOwned<String, Vec<u8>> {
    bytes.to_vec().into_validated()
}

fn borrowed_reason(bytes: &[u8]) -> Option<Utf8Error> {
    borrow_utf8(bytes).invalid_reason()
}

#[test]
fn utf8_valid_view_has_the_same_bytes() {
    let bytes: &[u8] = "grüße, 世界 🦀".as_bytes();
    let s = borrow_utf8(bytes).valid().expect("expected valid");
    assert_eq!(s.as_bytes(), bytes);
    assert_eq!(s, "grüße, 世界 🦀");
}

#[test]
fn utf8_empty_input_is_valid() {
    assert_eq!(borrow_utf8(b"").valid(), Some(""));
    assert_eq!(own_utf8(b"").valid(), Some(String::new()));
}

#[test]
fn utf8_reason_marks_longest_valid_prefix() {
    let e = borrowed_reason(b"ab\xffcd").expect("expected invalid");
    assert_eq!(e.valid_up_to(), 2);
    assert_eq!(e.error_len(), Some(1));

    // A multi-byte character cut short at the end of the input.
    let e = borrowed_reason(b"a\xe2\x82").expect("expected invalid");
    assert_eq!(e.valid_up_to(), 1);
    assert_eq!(e.error_len(), None);

    // A surrogate encoding is not UTF-8.
    let e = borrowed_reason(b"xy\xed\xa0\x80").expect("expected invalid");
    assert_eq!(e.valid_up_to(), 2);
    assert!(e.error_len().is_some());

    // An overlong encoding is not UTF-8.
    let e = borrowed_reason(b"\xc0\xaf").expect("expected invalid");
    assert_eq!(e.valid_up_to(), 0);
}

#[test]
fn utf8_borrowed_and_owned_agree() {
    let inputs: Vec<&[u8]> = vec![
        b"",
        b"plain",
        "é".as_bytes(),
        b"\xff",
        b"ok\xe2\x82",
        b"ab\xffcd",
        b"\xf0\x9f\xa6\x80",
    ];
    for bytes in inputs {
        let borrowed = borrow_utf8(bytes);
        let owned = own_utf8(bytes);
        assert_eq!(borrowed.is_valid(), owned.is_valid());
        match (borrowed, owned) {
            (MaybeValidRef::Valid(s), MaybeValidOwned::Valid(t)) => assert_eq!(s, t.as_str()),
            (MaybeValidRef::Invalid(p, e1), MaybeValidOwned::Invalid(q, e2)) => {
                assert_eq!(p, bytes);
                assert_eq!(q, bytes.to_vec());
                assert_eq!(e1, e2);
            }
            _ => panic!("borrowed and owned outcomes disagree"),
        }
    }
}

#[test]
fn utf8_classification_is_deterministic() {
    let bytes: &[u8] = b"ab\xffcd";
    assert_eq!(borrowed_reason(bytes), borrowed_reason(bytes));
    assert_eq!(borrow_utf8(b"abc").valid(), borrow_utf8(b"abc").valid());
}

#[test]
fn outcome_is_exactly_one_of_valid_and_invalid() {
    for bytes in [&b"ok"[..], &b"\xff"[..]] {
        let m = borrow_utf8(bytes);
        assert_ne!(m.is_valid(), m.is_invalid());
        assert_eq!(m.as_ref().valid().is_some(), m.is_valid());
        assert_eq!(m.as_ref().invalid_parts().is_some(), m.is_invalid());
        assert_eq!(m.as_ref().invalid_precursor().is_some(), m.is_invalid());
        assert_eq!(m.invalid_reason().is_some(), !borrow_utf8(bytes).is_valid());
    }
    let owned: MaybeValidOwned<char, u32> = 0xD800_u32.into_validated();
    assert!(owned.is_invalid() && !owned.is_valid());
    assert_eq!(owned.invalid_parts().map(|(p, _)| p), Some(0xD800));
}

#[test]
fn into_result_keeps_the_precursor() {
    let bytes: &[u8] = b"x\xff";
    match borrow_utf8(bytes).into_result() {
        Ok(_) => panic!("expected invalid"),
        Err((p, e)) => {
            assert_eq!(p, bytes);
            assert_eq!(e.valid_up_to(), 1);
        }
    }
    assert_eq!(borrow_utf8(b"hi").into_result_reason_only(), Ok("hi"));
    let owned = own_utf8(b"x\xff");
    let reason_only = own_utf8(b"x\xff").into_result_reason_only();
    match owned.into_result() {
        Ok(_) => panic!("expected invalid"),
        Err((p, e)) => {
            assert_eq!(p, b"x\xff".to_vec());
            assert_eq!(Err(e), reason_only);
        }
    }
    assert_eq!(own_utf8(b"hi").into_result().ok(), Some("hi".to_string()));
}

#[test]
fn as_ref_keeps_the_variant_and_the_reason() {
    let bytes: &[u8] = b"\xe2\x82";
    let m = borrow_utf8(bytes);
    let r = m.as_ref();
    match (r, &m) {
        (MaybeValidRef::Invalid(p, e1), MaybeValidRef::Invalid(q, e2)) => {
            assert_eq!(p, *q);
            assert_eq!(&e1, e2);
        }
        _ => panic!("expected invalid"),
    }
    let owned = own_utf8(b"ok");
    match owned.as_ref() {
        MaybeValidRef::Valid(s) => assert_eq!(s.as_str(), "ok"),
        MaybeValidRef::Invalid(_, _) => panic!("expected valid"),
    }
    let owned = own_utf8(b"\xff");
    match owned.as_ref() {
        MaybeValidRef::Invalid(p, e) => {
            assert_eq!(p, &vec![0xff]);
            assert_eq!(e.valid_up_to(), 0);
        }
        MaybeValidRef::Valid(_) => panic!("expected invalid"),
    }
}

#[test]
fn into_owned_keeps_the_variant_and_the_reason() {
    let valid = borrow_utf8(b"ok").into_owned();
    assert_eq!(valid.valid(), Some("ok".to_string()));
    let bytes: &[u8] = b"a\xffb";
    let reason = borrowed_reason(bytes);
    let owned = borrow_utf8(bytes).into_owned();
    assert_eq!(owned.invalid_parts(), Some((bytes.to_vec(), reason.expect("expected invalid"))));
}

#[test]
fn char_round_trip_and_boundaries() {
    for c in ['\0', 'A', 'é', '\u{D7FF}', '\u{E000}', '世', '🦀', '\u{10FFFF}'] {
        let m: MaybeValidOwned<char, u32> = (c as u32).into_validated();
        assert_eq!(m.valid(), Some(c));
    }
    for x in [0xD800_u32, 0xDBFF, 0xDC00, 0xDFFF, 0x11_0000, u32::MAX] {
        let m: MaybeValidOwned<char, u32> = x.into_validated();
        assert_eq!(m.invalid_precursor(), Some(x));
    }
}

#[test]
fn non_zero_holds_the_value() {
    let m: MaybeValidOwned<NonZeroU8, u8> = 200_u8.into_validated();
    assert_eq!(m.valid().map(|z| z.get()), Some(200));
    let m: MaybeValidOwned<NonZeroI8, i8> = (-128_i8).into_validated();
    assert_eq!(m.valid().map(|z| z.get()), Some(-128));
    let m: MaybeValidOwned<NonZeroU32, u32> = u32::MAX.into_validated();
    assert_eq!(m.valid().map(|z| z.get()), Some(u32::MAX));
    let m: MaybeValidOwned<NonZeroU128, u128> = 7_u128.into_validated();
    assert_eq!(m.valid().map(|z| z.get()), Some(7));
    let m: MaybeValidOwned<NonZeroIsize, isize> = (-1_isize).into_validated();
    assert_eq!(m.valid().map(|z| z.get()), Some(-1));
    assert_eq!(NonZeroU8::new(0), None);
    assert_eq!(NonZeroU8::new(5).map(|z| z.get()), Some(5));
    let zero: MaybeValidOwned<NonZeroU32, u32> = 0_u32.into_validated();
    assert_eq!(zero.invalid_reason(), Some(ZeroReason));
}

#[test]
fn c_string_needs_exactly_one_terminating_nul() {
    let ok = CString::from_vec_with_nul(b"\0".to_vec()).expect("expected valid");
    assert_eq!(ok.to_bytes_with_nul(), b"\0");
    for bad in [&b""[..], &b"abc"[..], &b"\0\0"[..], &b"a\0b"[..], &b"\0a\0"[..]] {
        assert_eq!(CString::from_vec_with_nul(bad.to_vec()), Err(bad.to_vec()));
        let m: MaybeValidOwned<CString, Vec<u8>> = bad.to_vec().into_validated();
        assert_eq!(m.invalid_parts(), Some((bad.to_vec(), CStrInvalidReason::Unspecified)));
    }
    let m: MaybeValidOwned<CString, Vec<u8>> = b"hello\0".to_vec().into_validated();
    assert_eq!(m.valid().map(|c| c.to_bytes_with_nul().to_vec()), Some(b"hello\0".to_vec()));
}

#[test]
fn owned_classification_is_deterministic() {
    for x in [0_u32, 0x41, 0xD800, 0x11_0000] {
        let a: MaybeValidOwned<char, u32> = x.into_validated();
        let b: MaybeValidOwned<char, u32> = x.into_validated();
        assert_eq!(a.is_valid(), b.is_valid());
        assert_eq!(a.invalid_precursor(), b.invalid_precursor());
        let c: MaybeValidOwned<NonZeroU32, u32> = x.into_validated();
        let d: MaybeValidOwned<NonZeroU32, u32> = x.into_validated();
        assert_eq!(c.valid().map(|z| z.get()), d.valid().map(|z| z.get()));
    }
    let e: MaybeValidOwned<CString, Vec<u8>> = b"a\0b\0".to_vec().into_validated();
    let f: MaybeValidOwned<CString, Vec<u8>> = b"a\0b\0".to_vec().into_validated();
    assert_eq!(e.invalid_parts(), f.invalid_parts());
}

#[test]
fn c_str_borrowed_and_owned_agree() {
    let inputs: Vec<&[u8]> = vec![b"", b"\0", b"abc", b"abc\0", b"\0\0", b"a\0b", b"a\0b\0"];
    for bytes in inputs {
        let borrowed: MaybeValidRef<'_, core::ffi::CStr, [u8]> = bytes.as_validated();
        let owned: MaybeValidOwned<CString, Vec<u8>> = bytes.to_vec().into_validated();
        assert_eq!(borrowed.is_valid(), owned.is_valid());
        match (borrowed, owned) {
            (MaybeValidRef::Valid(c), MaybeValidOwned::Valid(d)) => {
                assert_eq!(c.to_bytes_with_nul(), bytes);
                assert_eq!(d.to_bytes_with_nul(), bytes);
            }
            (MaybeValidRef::Invalid(p, reason), MaybeValidOwned::Invalid(q, owned_reason)) => {
                assert_eq!(p, bytes);
                assert_eq!(q, bytes.to_vec());
                assert_ne!(reason, CStrInvalidReason::Unspecified);
                assert_eq!(owned_reason, CStrInvalidReason::Unspecified);
            }
            _ => panic!("borrowed and owned outcomes disagree"),
        }
    }
    let r: MaybeValidRef<'_, core::ffi::CStr, [u8]> = b"ab\0cd".as_slice().as_validated();
    assert_eq!(r.invalid_reason(), Some(CStrInvalidReason::InteriorNul { position: 2 }));
    let r: MaybeValidRef<'_, core::ffi::CStr, [u8]> = b"".as_slice().as_validated();
    assert_eq!(r.invalid_reason(), Some(CStrInvalidReason::MissingNul));
}
