# maybe_valid

Structural validation with explicit valid/invalid outcomes, verified with Verus.

- `src/api.rs`: the `Validated`, `AsValidated` and `IntoValidated` traits and the
  outcome enums `MaybeValidRef` / `MaybeValidOwned` with their accessors.
- `src/utf8.rs`: the UTF-8 diagnostic `Utf8Error` and the calls into the
  standard library's UTF-8 validation.
- `src/core_impls.rs`: `[u8]` as `str` and as `CStr`, `u32` as `char`, and the reason types.
- `src/alloc_impls.rs`: `Vec<u8>` into `String`.
- `src/c_string.rs`: an owned C string and `Vec<u8>` into it.
- `src/nonzero.rs`: non-zero integer types and the integer conversions into them.
- `src/laws.rs`: properties that span several functions.
