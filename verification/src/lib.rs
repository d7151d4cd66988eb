//! Structural validation: a target type names its diagnostic reason, and
//! borrowing or owning conversions report a valid/invalid outcome that keeps
//! the precursor on the invalid path.
//!
//! Conversions offered: `[u8]` borrowed as `str` and as `core::ffi::CStr`;
//! `Vec<u8>` into `String` and into this crate's `CString`; `u32` into
//! `char`; each integer type into this crate's matching non-zero type.
//!
//! Integers are not borrowed as non-zero values: a `&u8` cannot become a
//! reference to a non-zero type without an unsafe reference cast, and this
//! crate holds no unsafe code.

mod alloc_impls;
mod api;
mod c_string;
mod core_impls;
mod laws;
mod nonzero;
mod utf8;

pub use api::{AsValidated, IntoValidated, MaybeValidOwned, MaybeValidRef, Validated};
pub use c_string::CString;
pub use core_impls::{CStrInvalidReason, ZeroReason};
pub use laws::{
    law_as_validated_is_deterministic, law_c_str_reason_names_first_nul, law_c_string_borrowed_and_owned_agree, law_char_round_trip, law_into_validated_is_deterministic,
    law_owned_outcome_is_valid_or_invalid, law_owned_result_round_trip,
    law_ref_outcome_is_valid_or_invalid, law_ref_result_round_trip,
    law_utf8_borrow_is_deterministic, law_utf8_borrowed_and_owned_agree, law_utf8_error_len_measures_invalid_sequence,
    law_utf8_reason_marks_longest_valid_prefix,
};
pub use nonzero::{
    NonZeroI128, NonZeroI16, NonZeroI32, NonZeroI64, NonZeroI8, NonZeroIsize, NonZeroU128, NonZeroU16,
    NonZeroU32, NonZeroU64, NonZeroU8, NonZeroUsize,
};
pub use utf8::Utf8Error;
