use vstd::prelude::*;
use vstd::utf8::{decode_utf8, valid_utf8};
use vstd::string::StringSliceAdditionalSpecFns;

verus! {

/// Why a byte sequence is not UTF-8: how far it was valid, and what stopped
/// decoding there.
#[derive(Clone, Copy, Debug, PartialEq, Eq)]
pub struct Utf8Error {
    valid_up_to: usize,
    error_len: Option<usize>,
}

/// Length of the longest prefix of `bytes`, at most `n` long, that is valid UTF-8.
pub open spec fn longest_valid_prefix_within(bytes: Seq<u8>, n: nat) -> nat
    decreases n,
{
    if n == 0 || valid_utf8(bytes.take(n as int)) {
        n
    } else {
        longest_valid_prefix_within(bytes, (n - 1) as nat)
    }
}

/// Length of the longest prefix of `bytes` that is valid UTF-8.
pub open spec fn longest_valid_prefix(bytes: Seq<u8>) -> nat {
    longest_valid_prefix_within(bytes, bytes.len())
}

/// How many bytes a character led by `b` takes: 1 for ASCII, 2 to 4 for a
/// valid lead byte, 0 for a byte that cannot start a character.
pub open spec fn utf8_char_width(b: u8) -> int {
    if b <= 0x7f {
        1
    } else if 0xc2 <= b <= 0xdf {
        2
    } else if 0xe0 <= b <= 0xef {
        3
    } else if 0xf0 <= b <= 0xf4 {
        4
    } else {
        0
    }
}

/// `second` may follow the lead byte `first` in a well-formed character: this
/// is where overlong forms, surrogates and values above `0x10FFFF` are ruled
/// out.
pub open spec fn second_byte_fits(first: u8, second: u8) -> bool {
    if 0xc2 <= first <= 0xdf {
        0x80 <= second <= 0xbf
    } else if first == 0xe0 {
        0xa0 <= second <= 0xbf
    } else if (0xe1 <= first <= 0xec) || (0xee <= first <= 0xef) {
        0x80 <= second <= 0xbf
    } else if first == 0xed {
        0x80 <= second <= 0x9f
    } else if first == 0xf0 {
        0x90 <= second <= 0xbf
    } else if 0xf1 <= first <= 0xf3 {
        0x80 <= second <= 0xbf
    } else if first == 0xf4 {
        0x80 <= second <= 0x8f
    } else {
        false
    }
}

/// `b` is a continuation byte, `10xxxxxx`.
pub open spec fn is_continuation(b: u8) -> bool {
    0x80 <= b <= 0xbf
}

/// Diagnosis of the character that starts `rest` when it fails to decode:
/// `Some(k + 1)` when a lead byte is followed by `k` bytes that continue it
/// and then by a byte that cannot (`Some(1)` for a byte that cannot lead),
/// and `None` when `rest` ends before such a byte.
pub open spec fn invalid_sequence_len(rest: Seq<u8>) -> Option<usize> {
    let w = utf8_char_width(rest[0]);
    if w < 2 {
        Some(1)
    } else if rest.len() < 2 {
        None
    } else if !second_byte_fits(rest[0], rest[1]) {
        Some(1)
    } else if w == 2 {
        Some(2)
    } else if rest.len() < 3 {
        None
    } else if !is_continuation(rest[2]) {
        Some(2)
    } else if w == 3 {
        Some(3)
    } else if rest.len() < 4 {
        None
    } else if !is_continuation(rest[3]) {
        Some(3)
    } else {
        Some(4)
    }
}

/// Byte `i` of `rest` (with `i >= 1`) may follow the bytes before it in a
/// character led by `rest[0]`.
pub open spec fn continues_lead(rest: Seq<u8>, i: int) -> bool {
    if i == 1 {
        second_byte_fits(rest[0], rest[1])
    } else {
        is_continuation(rest[i])
    }
}

/// The first `n` bytes of `rest` are an unfinished character: a lead byte
/// that needs more than `n` bytes, followed by bytes that continue it.
pub open spec fn is_partial_character(rest: Seq<u8>, n: int) -> bool {
    &&& 1 <= n <= rest.len()
    &&& n < utf8_char_width(rest[0])
    &&& forall|i: int| 1 <= i < n ==> #[trigger] continues_lead(rest, i)
}

/// What `Utf8Error::error_len` reports for a failed decoding of `bytes`: the
/// diagnosis of the character at the end of the longest valid prefix.
pub open spec fn utf8_error_len(bytes: Seq<u8>) -> Option<usize> {
    invalid_sequence_len(bytes.skip(longest_valid_prefix(bytes) as int))
}

/// The longest valid prefix within the first `n` bytes is valid UTF-8, no
/// longer prefix within them is, and it is at most `n` long.
pub proof fn lemma_longest_valid_prefix_within(bytes: Seq<u8>, n: nat)
    requires
        n <= bytes.len(),
    ensures
        longest_valid_prefix_within(bytes, n) <= n,
        valid_utf8(bytes.take(longest_valid_prefix_within(bytes, n) as int)),
        forall|k: int|
            longest_valid_prefix_within(bytes, n) < k <= n ==> !valid_utf8(#[trigger] bytes.take(k)),
    decreases n,
{
    if n == 0 {
        assert(bytes.take(0).len() == 0);
    } else if !valid_utf8(bytes.take(n as int)) {
        lemma_longest_valid_prefix_within(bytes, (n - 1) as nat);
    }
}

/// When `bytes` is not UTF-8, the longest valid prefix stops before the end,
/// and the diagnosis there covers bytes of the input: `Some(n)` has `n >= 1`
/// bytes after it, and `None` leaves one to three bytes.
pub proof fn lemma_utf8_failure_bounds(bytes: Seq<u8>)
    requires
        !valid_utf8(bytes),
    ensures
        longest_valid_prefix(bytes) < bytes.len(),
        utf8_error_len(bytes) matches Some(n) ==> n >= 1 && longest_valid_prefix(bytes) + n <= bytes.len(),
        utf8_error_len(bytes) is None ==> bytes.len() - 3 <= longest_valid_prefix(bytes),
{
    lemma_longest_valid_prefix_within(bytes, bytes.len());
    assert(bytes.take(bytes.len() as int) =~= bytes);
}

impl Utf8Error {
    /// Index up to which the input was verified to be valid UTF-8.
    pub closed spec fn spec_valid_up_to(self) -> usize {
        self.valid_up_to
    }

    /// Length of the invalid sequence at `valid_up_to`, or `None` if the input
    /// ended inside a character.
    pub closed spec fn spec_error_len(self) -> Option<usize> {
        self.error_len
    }

    /// The fields of `self` hold the diagnostic for a failed decoding of `bytes`.
    pub(crate) closed spec fn holds_diagnostic_of(self, bytes: Seq<u8>) -> bool {
        &&& self.valid_up_to == longest_valid_prefix(bytes)
        &&& self.error_len == utf8_error_len(bytes)
    }

    /// A diagnostic held in the fields is what the accessors report.
    pub(crate) proof fn lemma_describes(self, bytes: Seq<u8>)
        requires
            self.holds_diagnostic_of(bytes),
        ensures
            self.describes(bytes),
    {
    }

    /// `self` is the diagnostic for a failed decoding of `bytes`.
    pub open spec fn describes(self, bytes: Seq<u8>) -> bool {
        &&& self.spec_valid_up_to() == longest_valid_prefix(bytes)
        &&& self.spec_error_len() == utf8_error_len(bytes)
    }

    /// Two diagnostics of the same bytes are the same diagnostic.
    pub proof fn lemma_describes_unique(self, other: Utf8Error, bytes: Seq<u8>)
        requires
            self.describes(bytes),
            other.describes(bytes),
        ensures
            self == other,
    {
    }

    /// Returns the index in the input up to which valid UTF-8 was verified.
    pub fn valid_up_to(&self) -> (r: usize)
        ensures
            r == self.spec_valid_up_to(),
    {
        self.valid_up_to
    }

    /// Returns the length of the invalid byte sequence at `valid_up_to`, or
    /// `None` if the end of the input was reached inside a character.
    pub fn error_len(&self) -> (r: Option<usize>)
        ensures
            r == self.spec_error_len(),
    {
        self.error_len
    }
}

/// Calls `core::str::from_utf8`. Claims that the result is `Ok` exactly when
/// the bytes are valid UTF-8, the string then having the same bytes; and that
/// on failure `valid_up_to` is the longest valid prefix (as documented) and
/// `error_len` is the length of the invalid sequence there, by the rule of
/// `utf8_error_len`: `None` when the input ends inside a character, otherwise
/// the lead byte and the bytes that continue it, or 1 for a byte that cannot
/// lead, which is how the standard library's validator measures it.
#[verifier::external_body]
pub(crate) fn str_from_utf8(v: &[u8]) -> (r: Result<&str, Utf8Error>)
    ensures
        r is Ok <==> valid_utf8(v@),
        r matches Ok(s) ==> s.spec_bytes() == v@,
        r matches Err(e) ==> e.holds_diagnostic_of(v@),
{
    match core::str::from_utf8(v) {
        Ok(s) => Ok(s),
        Err(e) => Err(Utf8Error { valid_up_to: e.valid_up_to(), error_len: e.error_len() }),
    }
}

/// Calls `String::from_utf8`. Claims what its documentation says: the result
/// is `Ok` exactly when the bytes are valid UTF-8, the string then holds the
/// decoded characters, and on failure the original bytes come back unchanged
/// (`FromUtf8Error::into_bytes` hands back the very vector) with the same
/// diagnostic as `core::str::from_utf8` gives for them
/// (`FromUtf8Error::utf8_error`).
#[verifier::external_body]
pub(crate) fn string_from_utf8(v: Vec<u8>) -> (r: Result<String, (Vec<u8>, Utf8Error)>)
    ensures
        r is Ok <==> valid_utf8(v@),
        r matches Ok(s) ==> s@ == decode_utf8(v@),
        r matches Err((b, _e)) ==> b == v,
        r matches Err((_b, e)) ==> e.holds_diagnostic_of(v@),
{
    match String::from_utf8(v) {
        Ok(s) => Ok(s),
        Err(e) => {
            let reason = Utf8Error { valid_up_to: e.utf8_error().valid_up_to(), error_len: e.utf8_error().error_len() };
            Err((e.into_bytes(), reason))
        },
    }
}

} // verus!
