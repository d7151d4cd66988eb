use vstd::prelude::*;
use crate::api::{IntoValidated, MaybeValidOwned, Validated};
use crate::core_impls::ZeroReason;

verus! {

/// A `u8` that is known not to be zero.
#[derive(Clone, Copy, Debug, PartialEq, Eq, Hash)]
pub struct NonZeroU8 {
    value: u8,
}

impl NonZeroU8 {
    #[verifier::type_invariant]
    spec fn is_non_zero(self) -> bool {
        self.value != 0
    }

    /// The value held.
    pub closed spec fn spec_get(self) -> u8 {
        self.value
    }

    /// Creates a non-zero value if `n` is not zero.
    pub fn new(n: u8) -> (r: Option<Self>)
        ensures
            r is Some <==> n != 0,
            r matches Some(z) ==> z.spec_get() == n,
    {
        if n != 0 {
            Some(NonZeroU8 { value: n })
        } else {
            None
        }
    }

    /// Returns the value held, which is never zero.
    pub fn get(self) -> (r: u8)
        ensures
            r == self.spec_get(),
            r != 0,
    {
        proof {
            use_type_invariant(&self);
        }
        self.value
    }
}

/// The outcome of consuming `x` into a `NonZeroU8`: valid exactly when `x` is not
/// zero, the result then holding `x`; otherwise `x` comes back unchanged with
/// `ZeroReason`.
pub open spec fn is_non_zero_u8_outcome(x: u8, r: MaybeValidOwned<NonZeroU8, u8>) -> bool {
    &&& (r is Valid <==> x != 0)
    &&& (r matches MaybeValidOwned::Valid(z) ==> z.spec_get() == x)
    &&& (r matches MaybeValidOwned::Invalid(p, reason) ==> p == x && reason == ZeroReason)
}

impl Validated for NonZeroU8 {
    type InvalidReason = ZeroReason;
}

impl IntoValidated<NonZeroU8> for u8 {
    open spec fn satisfies(self) -> bool {
        self != 0
    }

    fn into_validated(self) -> (r: MaybeValidOwned<NonZeroU8, u8>)
        ensures
            is_non_zero_u8_outcome(self, r),
    {
        match NonZeroU8::new(self) {
            Some(z) => MaybeValidOwned::Valid(z),
            None => MaybeValidOwned::Invalid(self, ZeroReason),
        }
    }
}

/// A `u16` that is known not to be zero.
#[derive(Clone, Copy, Debug, PartialEq, Eq, Hash)]
pub struct NonZeroU16 {
    value: u16,
}

impl NonZeroU16 {
    #[verifier::type_invariant]
    spec fn is_non_zero(self) -> bool {
        self.value != 0
    }

    /// The value held.
    pub closed spec fn spec_get(self) -> u16 {
        self.value
    }

    /// Creates a non-zero value if `n` is not zero.
    pub fn new(n: u16) -> (r: Option<Self>)
        ensures
            r is Some <==> n != 0,
            r matches Some(z) ==> z.spec_get() == n,
    {
        if n != 0 {
            Some(NonZeroU16 { value: n })
        } else {
            None
        }
    }

    /// Returns the value held, which is never zero.
    pub fn get(self) -> (r: u16)
        ensures
            r == self.spec_get(),
            r != 0,
    {
        proof {
            use_type_invariant(&self);
        }
        self.value
    }
}

/// The outcome of consuming `x` into a `NonZeroU16`: valid exactly when `x` is not
/// zero, the result then holding `x`; otherwise `x` comes back unchanged with
/// `ZeroReason`.
pub open spec fn is_non_zero_u16_outcome(x: u16, r: MaybeValidOwned<NonZeroU16, u16>) -> bool {
    &&& (r is Valid <==> x != 0)
    &&& (r matches MaybeValidOwned::Valid(z) ==> z.spec_get() == x)
    &&& (r matches MaybeValidOwned::Invalid(p, reason) ==> p == x && reason == ZeroReason)
}

impl Validated for NonZeroU16 {
    type InvalidReason = ZeroReason;
}

impl IntoValidated<NonZeroU16> for u16 {
    open spec fn satisfies(self) -> bool {
        self != 0
    }

    fn into_validated(self) -> (r: MaybeValidOwned<NonZeroU16, u16>)
        ensures
            is_non_zero_u16_outcome(self, r),
    {
        match NonZeroU16::new(self) {
            Some(z) => MaybeValidOwned::Valid(z),
            None => MaybeValidOwned::Invalid(self, ZeroReason),
        }
    }
}

/// A `u32` that is known not to be zero.
#[derive(Clone, Copy, Debug, PartialEq, Eq, Hash)]
pub struct NonZeroU32 {
    value: u32,
}

impl NonZeroU32 {
    #[verifier::type_invariant]
    spec fn is_non_zero(self) -> bool {
        self.value != 0
    }

    /// The value held.
    pub closed spec fn spec_get(self) -> u32 {
        self.value
    }

    /// Creates a non-zero value if `n` is not zero.
    pub fn new(n: u32) -> (r: Option<Self>)
        ensures
            r is Some <==> n != 0,
            r matches Some(z) ==> z.spec_get() == n,
    {
        if n != 0 {
            Some(NonZeroU32 { value: n })
        } else {
            None
        }
    }

    /// Returns the value held, which is never zero.
    pub fn get(self) -> (r: u32)
        ensures
            r == self.spec_get(),
            r != 0,
    {
        proof {
            use_type_invariant(&self);
        }
        self.value
    }
}

/// The outcome of consuming `x` into a `NonZeroU32`: valid exactly when `x` is not
/// zero, the result then holding `x`; otherwise `x` comes back unchanged with
/// `ZeroReason`.
pub open spec fn is_non_zero_u32_outcome(x: u32, r: MaybeValidOwned<NonZeroU32, u32>) -> bool {
    &&& (r is Valid <==> x != 0)
    &&& (r matches MaybeValidOwned::Valid(z) ==> z.spec_get() == x)
    &&& (r matches MaybeValidOwned::Invalid(p, reason) ==> p == x && reason == ZeroReason)
}

impl Validated for NonZeroU32 {
    type InvalidReason = ZeroReason;
}

impl IntoValidated<NonZeroU32> for u32 {
    open spec fn satisfies(self) -> bool {
        self != 0
    }

    fn into_validated(self) -> (r: MaybeValidOwned<NonZeroU32, u32>)
        ensures
            is_non_zero_u32_outcome(self, r),
    {
        match NonZeroU32::new(self) {
            Some(z) => MaybeValidOwned::Valid(z),
            None => MaybeValidOwned::Invalid(self, ZeroReason),
        }
    }
}

/// A `u64` that is known not to be zero.
#[derive(Clone, Copy, Debug, PartialEq, Eq, Hash)]
pub struct NonZeroU64 {
    value: u64,
}

impl NonZeroU64 {
    #[verifier::type_invariant]
    spec fn is_non_zero(self) -> bool {
        self.value != 0
    }

    /// The value held.
    pub closed spec fn spec_get(self) -> u64 {
        self.value
    }

    /// Creates a non-zero value if `n` is not zero.
    pub fn new(n: u64) -> (r: Option<Self>)
        ensures
            r is Some <==> n != 0,
            r matches Some(z) ==> z.spec_get() == n,
    {
        if n != 0 {
            Some(NonZeroU64 { value: n })
        } else {
            None
        }
    }

    /// Returns the value held, which is never zero.
    pub fn get(self) -> (r: u64)
        ensures
            r == self.spec_get(),
            r != 0,
    {
        proof {
            use_type_invariant(&self);
        }
        self.value
    }
}

/// The outcome of consuming `x` into a `NonZeroU64`: valid exactly when `x` is not
/// zero, the result then holding `x`; otherwise `x` comes back unchanged with
/// `ZeroReason`.
pub open spec fn is_non_zero_u64_outcome(x: u64, r: MaybeValidOwned<NonZeroU64, u64>) -> bool {
    &&& (r is Valid <==> x != 0)
    &&& (r matches MaybeValidOwned::Valid(z) ==> z.spec_get() == x)
    &&& (r matches MaybeValidOwned::Invalid(p, reason) ==> p == x && reason == ZeroReason)
}

impl Validated for NonZeroU64 {
    type InvalidReason = ZeroReason;
}

impl IntoValidated<NonZeroU64> for u64 {
    open spec fn satisfies(self) -> bool {
        self != 0
    }

    fn into_validated(self) -> (r: MaybeValidOwned<NonZeroU64, u64>)
        ensures
            is_non_zero_u64_outcome(self, r),
    {
        match NonZeroU64::new(self) {
            Some(z) => MaybeValidOwned::Valid(z),
            None => MaybeValidOwned::Invalid(self, ZeroReason),
        }
    }
}

/// A `u128` that is known not to be zero.
#[derive(Clone, Copy, Debug, PartialEq, Eq, Hash)]
pub struct NonZeroU128 {
    value: u128,
}

impl NonZeroU128 {
    #[verifier::type_invariant]
    spec fn is_non_zero(self) -> bool {
        self.value != 0
    }

    /// The value held.
    pub closed spec fn spec_get(self) -> u128 {
        self.value
    }

    /// Creates a non-zero value if `n` is not zero.
    pub fn new(n: u128) -> (r: Option<Self>)
        ensures
            r is Some <==> n != 0,
            r matches Some(z) ==> z.spec_get() == n,
    {
        if n != 0 {
            Some(NonZeroU128 { value: n })
        } else {
            None
        }
    }

    /// Returns the value held, which is never zero.
    pub fn get(self) -> (r: u128)
        ensures
            r == self.spec_get(),
            r != 0,
    {
        proof {
            use_type_invariant(&self);
        }
        self.value
    }
}

/// The outcome of consuming `x` into a `NonZeroU128`: valid exactly when `x` is not
/// zero, the result then holding `x`; otherwise `x` comes back unchanged with
/// `ZeroReason`.
pub open spec fn is_non_zero_u128_outcome(x: u128, r: MaybeValidOwned<NonZeroU128, u128>) -> bool {
    &&& (r is Valid <==> x != 0)
    &&& (r matches MaybeValidOwned::Valid(z) ==> z.spec_get() == x)
    &&& (r matches MaybeValidOwned::Invalid(p, reason) ==> p == x && reason == ZeroReason)
}

impl Validated for NonZeroU128 {
    type InvalidReason = ZeroReason;
}

impl IntoValidated<NonZeroU128> for u128 {
    open spec fn satisfies(self) -> bool {
        self != 0
    }

    fn into_validated(self) -> (r: MaybeValidOwned<NonZeroU128, u128>)
        ensures
            is_non_zero_u128_outcome(self, r),
    {
        match NonZeroU128::new(self) {
            Some(z) => MaybeValidOwned::Valid(z),
            None => MaybeValidOwned::Invalid(self, ZeroReason),
        }
    }
}

/// A `usize` that is known not to be zero.
#[derive(Clone, Copy, Debug, PartialEq, Eq, Hash)]
pub struct NonZeroUsize {
    value: usize,
}

impl NonZeroUsize {
    #[verifier::type_invariant]
    spec fn is_non_zero(self) -> bool {
        self.value != 0
    }

    /// The value held.
    pub closed spec fn spec_get(self) -> usize {
        self.value
    }

    /// Creates a non-zero value if `n` is not zero.
    pub fn new(n: usize) -> (r: Option<Self>)
        ensures
            r is Some <==> n != 0,
            r matches Some(z) ==> z.spec_get() == n,
    {
        if n != 0 {
            Some(NonZeroUsize { value: n })
        } else {
            None
        }
    }

    /// Returns the value held, which is never zero.
    pub fn get(self) -> (r: usize)
        ensures
            r == self.spec_get(),
            r != 0,
    {
        proof {
            use_type_invariant(&self);
        }
        self.value
    }
}

/// The outcome of consuming `x` into a `NonZeroUsize`: valid exactly when `x` is not
/// zero, the result then holding `x`; otherwise `x` comes back unchanged with
/// `ZeroReason`.
pub open spec fn is_non_zero_usize_outcome(x: usize, r: MaybeValidOwned<NonZeroUsize, usize>) -> bool {
    &&& (r is Valid <==> x != 0)
    &&& (r matches MaybeValidOwned::Valid(z) ==> z.spec_get() == x)
    &&& (r matches MaybeValidOwned::Invalid(p, reason) ==> p == x && reason == ZeroReason)
}

impl Validated for NonZeroUsize {
    type InvalidReason = ZeroReason;
}

impl IntoValidated<NonZeroUsize> for usize {
    open spec fn satisfies(self) -> bool {
        self != 0
    }

    fn into_validated(self) -> (r: MaybeValidOwned<NonZeroUsize, usize>)
        ensures
            is_non_zero_usize_outcome(self, r),
    {
        match NonZeroUsize::new(self) {
            Some(z) => MaybeValidOwned::Valid(z),
            None => MaybeValidOwned::Invalid(self, ZeroReason),
        }
    }
}

/// A `i8` that is known not to be zero.
#[derive(Clone, Copy, Debug, PartialEq, Eq, Hash)]
pub struct NonZeroI8 {
    value: i8,
}

impl NonZeroI8 {
    #[verifier::type_invariant]
    spec fn is_non_zero(self) -> bool {
        self.value != 0
    }

    /// The value held.
    pub closed spec fn spec_get(self) -> i8 {
        self.value
    }

    /// Creates a non-zero value if `n` is not zero.
    pub fn new(n: i8) -> (r: Option<Self>)
        ensures
            r is Some <==> n != 0,
            r matches Some(z) ==> z.spec_get() == n,
    {
        if n != 0 {
            Some(NonZeroI8 { value: n })
        } else {
            None
        }
    }

    /// Returns the value held, which is never zero.
    pub fn get(self) -> (r: i8)
        ensures
            r == self.spec_get(),
            r != 0,
    {
        proof {
            use_type_invariant(&self);
        }
        self.value
    }
}

/// The outcome of consuming `x` into a `NonZeroI8`: valid exactly when `x` is not
/// zero, the result then holding `x`; otherwise `x` comes back unchanged with
/// `ZeroReason`.
pub open spec fn is_non_zero_i8_outcome(x: i8, r: MaybeValidOwned<NonZeroI8, i8>) -> bool {
    &&& (r is Valid <==> x != 0)
    &&& (r matches MaybeValidOwned::Valid(z) ==> z.spec_get() == x)
    &&& (r matches MaybeValidOwned::Invalid(p, reason) ==> p == x && reason == ZeroReason)
}

impl Validated for NonZeroI8 {
    type InvalidReason = ZeroReason;
}

impl IntoValidated<NonZeroI8> for i8 {
    open spec fn satisfies(self) -> bool {
        self != 0
    }

    fn into_validated(self) -> (r: MaybeValidOwned<NonZeroI8, i8>)
        ensures
            is_non_zero_i8_outcome(self, r),
    {
        match NonZeroI8::new(self) {
            Some(z) => MaybeValidOwned::Valid(z),
            None => MaybeValidOwned::Invalid(self, ZeroReason),
        }
    }
}

/// A `i16` that is known not to be zero.
#[derive(Clone, Copy, Debug, PartialEq, Eq, Hash)]
pub struct NonZeroI16 {
    value: i16,
}

impl NonZeroI16 {
    #[verifier::type_invariant]
    spec fn is_non_zero(self) -> bool {
        self.value != 0
    }

    /// The value held.
    pub closed spec fn spec_get(self) -> i16 {
        self.value
    }

    /// Creates a non-zero value if `n` is not zero.
    pub fn new(n: i16) -> (r: Option<Self>)
        ensures
            r is Some <==> n != 0,
            r matches Some(z) ==> z.spec_get() == n,
    {
        if n != 0 {
            Some(NonZeroI16 { value: n })
        } else {
            None
        }
    }

    /// Returns the value held, which is never zero.
    pub fn get(self) -> (r: i16)
        ensures
            r == self.spec_get(),
            r != 0,
    {
        proof {
            use_type_invariant(&self);
        }
        self.value
    }
}

/// The outcome of consuming `x` into a `NonZeroI16`: valid exactly when `x` is not
/// zero, the result then holding `x`; otherwise `x` comes back unchanged with
/// `ZeroReason`.
pub open spec fn is_non_zero_i16_outcome(x: i16, r: MaybeValidOwned<NonZeroI16, i16>) -> bool {
    &&& (r is Valid <==> x != 0)
    &&& (r matches MaybeValidOwned::Valid(z) ==> z.spec_get() == x)
    &&& (r matches MaybeValidOwned::Invalid(p, reason) ==> p == x && reason == ZeroReason)
}

impl Validated for NonZeroI16 {
    type InvalidReason = ZeroReason;
}

impl IntoValidated<NonZeroI16> for i16 {
    open spec fn satisfies(self) -> bool {
        self != 0
    }

    fn into_validated(self) -> (r: MaybeValidOwned<NonZeroI16, i16>)
        ensures
            is_non_zero_i16_outcome(self, r),
    {
        match NonZeroI16::new(self) {
            Some(z) => MaybeValidOwned::Valid(z),
            None => MaybeValidOwned::Invalid(self, ZeroReason),
        }
    }
}

/// A `i32` that is known not to be zero.
#[derive(Clone, Copy, Debug, PartialEq, Eq, Hash)]
pub struct NonZeroI32 {
    value: i32,
}

impl NonZeroI32 {
    #[verifier::type_invariant]
    spec fn is_non_zero(self) -> bool {
        self.value != 0
    }

    /// The value held.
    pub closed spec fn spec_get(self) -> i32 {
        self.value
    }

    /// Creates a non-zero value if `n` is not zero.
    pub fn new(n: i32) -> (r: Option<Self>)
        ensures
            r is Some <==> n != 0,
            r matches Some(z) ==> z.spec_get() == n,
    {
        if n != 0 {
            Some(NonZeroI32 { value: n })
        } else {
            None
        }
    }

    /// Returns the value held, which is never zero.
    pub fn get(self) -> (r: i32)
        ensures
            r == self.spec_get(),
            r != 0,
    {
        proof {
            use_type_invariant(&self);
        }
        self.value
    }
}

/// The outcome of consuming `x` into a `NonZeroI32`: valid exactly when `x` is not
/// zero, the result then holding `x`; otherwise `x` comes back unchanged with
/// `ZeroReason`.
pub open spec fn is_non_zero_i32_outcome(x: i32, r: MaybeValidOwned<NonZeroI32, i32>) -> bool {
    &&& (r is Valid <==> x != 0)
    &&& (r matches MaybeValidOwned::Valid(z) ==> z.spec_get() == x)
    &&& (r matches MaybeValidOwned::Invalid(p, reason) ==> p == x && reason == ZeroReason)
}

impl Validated for NonZeroI32 {
    type InvalidReason = ZeroReason;
}

impl IntoValidated<NonZeroI32> for i32 {
    open spec fn satisfies(self) -> bool {
        self != 0
    }

    fn into_validated(self) -> (r: MaybeValidOwned<NonZeroI32, i32>)
        ensures
            is_non_zero_i32_outcome(self, r),
    {
        match NonZeroI32::new(self) {
            Some(z) => MaybeValidOwned::Valid(z),
            None => MaybeValidOwned::Invalid(self, ZeroReason),
        }
    }
}

/// A `i64` that is known not to be zero.
#[derive(Clone, Copy, Debug, PartialEq, Eq, Hash)]
pub struct NonZeroI64 {
    value: i64,
}

impl NonZeroI64 {
    #[verifier::type_invariant]
    spec fn is_non_zero(self) -> bool {
        self.value != 0
    }

    /// The value held.
    pub closed spec fn spec_get(self) -> i64 {
        self.value
    }

    /// Creates a non-zero value if `n` is not zero.
    pub fn new(n: i64) -> (r: Option<Self>)
        ensures
            r is Some <==> n != 0,
            r matches Some(z) ==> z.spec_get() == n,
    {
        if n != 0 {
            Some(NonZeroI64 { value: n })
        } else {
            None
        }
    }

    /// Returns the value held, which is never zero.
    pub fn get(self) -> (r: i64)
        ensures
            r == self.spec_get(),
            r != 0,
    {
        proof {
            use_type_invariant(&self);
        }
        self.value
    }
}

/// The outcome of consuming `x` into a `NonZeroI64`: valid exactly when `x` is not
/// zero, the result then holding `x`; otherwise `x` comes back unchanged with
/// `ZeroReason`.
pub open spec fn is_non_zero_i64_outcome(x: i64, r: MaybeValidOwned<NonZeroI64, i64>) -> bool {
    &&& (r is Valid <==> x != 0)
    &&& (r matches MaybeValidOwned::Valid(z) ==> z.spec_get() == x)
    &&& (r matches MaybeValidOwned::Invalid(p, reason) ==> p == x && reason == ZeroReason)
}

impl Validated for NonZeroI64 {
    type InvalidReason = ZeroReason;
}

impl IntoValidated<NonZeroI64> for i64 {
    open spec fn satisfies(self) -> bool {
        self != 0
    }

    fn into_validated(self) -> (r: MaybeValidOwned<NonZeroI64, i64>)
        ensures
            is_non_zero_i64_outcome(self, r),
    {
        match NonZeroI64::new(self) {
            Some(z) => MaybeValidOwned::Valid(z),
            None => MaybeValidOwned::Invalid(self, ZeroReason),
        }
    }
}

/// A `i128` that is known not to be zero.
#[derive(Clone, Copy, Debug, PartialEq, Eq, Hash)]
pub struct NonZeroI128 {
    value: i128,
}

impl NonZeroI128 {
    #[verifier::type_invariant]
    spec fn is_non_zero(self) -> bool {
        self.value != 0
    }

    /// The value held.
    pub closed spec fn spec_get(self) -> i128 {
        self.value
    }

    /// Creates a non-zero value if `n` is not zero.
    pub fn new(n: i128) -> (r: Option<Self>)
        ensures
            r is Some <==> n != 0,
            r matches Some(z) ==> z.spec_get() == n,
    {
        if n != 0 {
            Some(NonZeroI128 { value: n })
        } else {
            None
        }
    }

    /// Returns the value held, which is never zero.
    pub fn get(self) -> (r: i128)
        ensures
            r == self.spec_get(),
            r != 0,
    {
        proof {
            use_type_invariant(&self);
        }
        self.value
    }
}

/// The outcome of consuming `x` into a `NonZeroI128`: valid exactly when `x` is not
/// zero, the result then holding `x`; otherwise `x` comes back unchanged with
/// `ZeroReason`.
pub open spec fn is_non_zero_i128_outcome(x: i128, r: MaybeValidOwned<NonZeroI128, i128>) -> bool {
    &&& (r is Valid <==> x != 0)
    &&& (r matches MaybeValidOwned::Valid(z) ==> z.spec_get() == x)
    &&& (r matches MaybeValidOwned::Invalid(p, reason) ==> p == x && reason == ZeroReason)
}

impl Validated for NonZeroI128 {
    type InvalidReason = ZeroReason;
}

impl IntoValidated<NonZeroI128> for i128 {
    open spec fn satisfies(self) -> bool {
        self != 0
    }

    fn into_validated(self) -> (r: MaybeValidOwned<NonZeroI128, i128>)
        ensures
            is_non_zero_i128_outcome(self, r),
    {
        match NonZeroI128::new(self) {
            Some(z) => MaybeValidOwned::Valid(z),
            None => MaybeValidOwned::Invalid(self, ZeroReason),
        }
    }
}

/// A `isize` that is known not to be zero.
#[derive(Clone, Copy, Debug, PartialEq, Eq, Hash)]
pub struct NonZeroIsize {
    value: isize,
}

impl NonZeroIsize {
    #[verifier::type_invariant]
    spec fn is_non_zero(self) -> bool {
        self.value != 0
    }

    /// The value held.
    pub closed spec fn spec_get(self) -> isize {
        self.value
    }

    /// Creates a non-zero value if `n` is not zero.
    pub fn new(n: isize) -> (r: Option<Self>)
        ensures
            r is Some <==> n != 0,
            r matches Some(z) ==> z.spec_get() == n,
    {
        if n != 0 {
            Some(NonZeroIsize { value: n })
        } else {
            None
        }
    }

    /// Returns the value held, which is never zero.
    pub fn get(self) -> (r: isize)
        ensures
            r == self.spec_get(),
            r != 0,
    {
        proof {
            use_type_invariant(&self);
        }
        self.value
    }
}

/// The outcome of consuming `x` into a `NonZeroIsize`: valid exactly when `x` is not
/// zero, the result then holding `x`; otherwise `x` comes back unchanged with
/// `ZeroReason`.
pub open spec fn is_non_zero_isize_outcome(x: isize, r: MaybeValidOwned<NonZeroIsize, isize>) -> bool {
    &&& (r is Valid <==> x != 0)
    &&& (r matches MaybeValidOwned::Valid(z) ==> z.spec_get() == x)
    &&& (r matches MaybeValidOwned::Invalid(p, reason) ==> p == x && reason == ZeroReason)
}

impl Validated for NonZeroIsize {
    type InvalidReason = ZeroReason;
}

impl IntoValidated<NonZeroIsize> for isize {
    open spec fn satisfies(self) -> bool {
        self != 0
    }

    fn into_validated(self) -> (r: MaybeValidOwned<NonZeroIsize, isize>)
        ensures
            is_non_zero_isize_outcome(self, r),
    {
        match NonZeroIsize::new(self) {
            Some(z) => MaybeValidOwned::Valid(z),
            None => MaybeValidOwned::Invalid(self, ZeroReason),
        }
    }
}

} // verus!
