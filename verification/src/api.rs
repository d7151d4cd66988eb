use vstd::prelude::*;

verus! {

/// A type whose values are guaranteed to satisfy a validation predicate.
///
/// The implementation names the canonical failure explanation for the
/// type. Conversions into `Self`, borrowing ([`AsValidated`]) or owning
/// ([`IntoValidated`]), report failure with this type. The reason is
/// diagnostic only: the precursor is handed back structurally by the
/// outcome enums, never inside the reason.
pub trait Validated {
    /// Why a candidate value failed to satisfy this type's predicate.
    type InvalidReason;
}

/// The outcome of borrowing a value as a validated view of type `V`.
///
/// Both variants carry a reference into the caller's value: `Valid` as
/// `&V`, `Invalid` as `&P` (the precursor) together with the reason.
pub enum MaybeValidRef<'a, V: Validated + ?Sized, P: ?Sized> {
    /// The borrowed value satisfies `V`'s predicate.
    Valid(&'a V),
    /// The borrowed value does not satisfy `V`'s predicate; holds the
    /// precursor reference and the diagnostic reason.
    Invalid(&'a P, V::InvalidReason),
}

impl<'a, V: Validated + ?Sized, P: ?Sized> MaybeValidRef<'a, V, P> {
    /// The validated reference, when this outcome is `Valid`.
    pub open spec fn valid_part(self) -> Option<&'a V> {
        match self {
            MaybeValidRef::Valid(v) => Some(v),
            MaybeValidRef::Invalid(_, _) => None,
        }
    }

    /// The precursor reference and the reason, when this outcome is `Invalid`.
    pub open spec fn invalid_part(self) -> Option<(&'a P, V::InvalidReason)> {
        match self {
            MaybeValidRef::Valid(_) => None,
            MaybeValidRef::Invalid(p, r) => Some((p, r)),
        }
    }

    /// The outcome seen as a `Result` that keeps the precursor on the error path.
    pub open spec fn result_view(self) -> Result<&'a V, (&'a P, V::InvalidReason)> {
        match self {
            MaybeValidRef::Valid(v) => Ok(v),
            MaybeValidRef::Invalid(p, r) => Err((p, r)),
        }
    }

    /// Rebuilds an outcome from its `Result` form.
    pub open spec fn from_result_view(res: Result<&'a V, (&'a P, V::InvalidReason)>) -> Self {
        match res {
            Ok(v) => MaybeValidRef::Valid(v),
            Err((p, r)) => MaybeValidRef::Invalid(p, r),
        }
    }

    /// Returns `true` if this is the `Valid` variant.
    pub fn is_valid(&self) -> (r: bool)
        ensures
            r == (*self is Valid),
    {
        match self {
            MaybeValidRef::Valid(_) => true,
            MaybeValidRef::Invalid(_, _) => false,
        }
    }

    /// Returns `true` if this is the `Invalid` variant.
    pub fn is_invalid(&self) -> (r: bool)
        ensures
            r == (*self is Invalid),
    {
        match self {
            MaybeValidRef::Valid(_) => false,
            MaybeValidRef::Invalid(_, _) => true,
        }
    }

    /// Returns the validated reference, or `None` if invalid.
    pub fn valid(self) -> (r: Option<&'a V>)
        ensures
            r == self.valid_part(),
    {
        match self {
            MaybeValidRef::Valid(v) => Some(v),
            MaybeValidRef::Invalid(_, _) => None,
        }
    }

    /// Returns the precursor reference on the invalid path, or `None` if valid.
    pub fn invalid_precursor(self) -> (r: Option<&'a P>)
        ensures
            r == (match self.invalid_part() {
                Some(parts) => Some(parts.0),
                None => None,
            }),
    {
        match self {
            MaybeValidRef::Valid(_) => None,
            MaybeValidRef::Invalid(p, _) => Some(p),
        }
    }

    /// Returns the invalid reason, or `None` if valid.
    pub fn invalid_reason(self) -> (r: Option<V::InvalidReason>)
        ensures
            r == (match self.invalid_part() {
                Some(parts) => Some(parts.1),
                None => None,
            }),
    {
        match self {
            MaybeValidRef::Valid(_) => None,
            MaybeValidRef::Invalid(_, r) => Some(r),
        }
    }

    /// Returns the precursor reference and reason on the invalid path, or
    /// `None` if valid.
    pub fn invalid_parts(self) -> (r: Option<(&'a P, V::InvalidReason)>)
        ensures
            r == self.invalid_part(),
    {
        match self {
            MaybeValidRef::Valid(_) => None,
            MaybeValidRef::Invalid(p, r) => Some((p, r)),
        }
    }

    /// Returns an outcome that borrows from this one, with the same variant
    /// structure; the reason is cloned on the invalid path.
    pub fn as_ref(&self) -> (r: MaybeValidRef<'_, V, P>)
        where V::InvalidReason: Clone,
        ensures
            match (*self, r) {
                (MaybeValidRef::Valid(a), MaybeValidRef::Valid(b)) => a == b,
                (MaybeValidRef::Invalid(p, x), MaybeValidRef::Invalid(q, y)) => p == q && cloned(x, y),
                _ => false,
            },
    {
        match self {
            MaybeValidRef::Valid(v) => MaybeValidRef::Valid(*v),
            MaybeValidRef::Invalid(p, r) => MaybeValidRef::Invalid(*p, r.clone()),
        }
    }

    /// Converts into a `Result`, bundling the precursor reference into the error.
    pub fn into_result(self) -> (r: Result<&'a V, (&'a P, V::InvalidReason)>)
        ensures
            r == self.result_view(),
    {
        match self {
            MaybeValidRef::Valid(v) => Ok(v),
            MaybeValidRef::Invalid(p, r) => Err((p, r)),
        }
    }

    /// Converts into a `Result` that carries only the reason on the error path.
    pub fn into_result_reason_only(self) -> (r: Result<&'a V, V::InvalidReason>)
        ensures
            r == (match self.result_view() {
                Ok(v) => Ok(v),
                Err(parts) => Err(parts.1),
            }),
    {
        match self {
            MaybeValidRef::Valid(v) => Ok(v),
            MaybeValidRef::Invalid(_, r) => Err(r),
        }
    }
}

/// The outcome of consuming a value into a validated form of type `V`.
///
/// `Valid` holds the constructed `V`; `Invalid` holds the original
/// precursor, returned by move, together with the reason.
pub enum MaybeValidOwned<V: Validated, P> {
    /// The precursor satisfied `V`'s predicate.
    Valid(V),
    /// The precursor did not satisfy `V`'s predicate; holds it unchanged
    /// and the diagnostic reason.
    Invalid(P, V::InvalidReason),
}

impl<V: Validated, P> MaybeValidOwned<V, P> {
    /// The validated value, when this outcome is `Valid`.
    pub open spec fn valid_part(self) -> Option<V> {
        match self {
            MaybeValidOwned::Valid(v) => Some(v),
            MaybeValidOwned::Invalid(_, _) => None,
        }
    }

    /// The precursor and the reason, when this outcome is `Invalid`.
    pub open spec fn invalid_part(self) -> Option<(P, V::InvalidReason)> {
        match self {
            MaybeValidOwned::Valid(_) => None,
            MaybeValidOwned::Invalid(p, r) => Some((p, r)),
        }
    }

    /// The outcome seen as a `Result` that keeps the precursor on the error path.
    pub open spec fn result_view(self) -> Result<V, (P, V::InvalidReason)> {
        match self {
            MaybeValidOwned::Valid(v) => Ok(v),
            MaybeValidOwned::Invalid(p, r) => Err((p, r)),
        }
    }

    /// Rebuilds an outcome from its `Result` form.
    pub open spec fn from_result_view(res: Result<V, (P, V::InvalidReason)>) -> Self {
        match res {
            Ok(v) => MaybeValidOwned::Valid(v),
            Err((p, r)) => MaybeValidOwned::Invalid(p, r),
        }
    }

    /// Returns `true` if this is the `Valid` variant.
    pub fn is_valid(&self) -> (r: bool)
        ensures
            r == (*self is Valid),
    {
        match self {
            MaybeValidOwned::Valid(_) => true,
            MaybeValidOwned::Invalid(_, _) => false,
        }
    }

    /// Returns `true` if this is the `Invalid` variant.
    pub fn is_invalid(&self) -> (r: bool)
        ensures
            r == (*self is Invalid),
    {
        match self {
            MaybeValidOwned::Valid(_) => false,
            MaybeValidOwned::Invalid(_, _) => true,
        }
    }

    /// Returns the validated value, or `None` if invalid.
    pub fn valid(self) -> (r: Option<V>)
        ensures
            r == self.valid_part(),
    {
        match self {
            MaybeValidOwned::Valid(v) => Some(v),
            MaybeValidOwned::Invalid(_, _) => None,
        }
    }

    /// Returns the precursor on the invalid path, or `None` if valid.
    pub fn invalid_precursor(self) -> (r: Option<P>)
        ensures
            r == (match self.invalid_part() {
                Some(parts) => Some(parts.0),
                None => None,
            }),
    {
        match self {
            MaybeValidOwned::Valid(_) => None,
            MaybeValidOwned::Invalid(p, _) => Some(p),
        }
    }

    /// Returns the invalid reason, or `None` if valid.
    pub fn invalid_reason(self) -> (r: Option<V::InvalidReason>)
        ensures
            r == (match self.invalid_part() {
                Some(parts) => Some(parts.1),
                None => None,
            }),
    {
        match self {
            MaybeValidOwned::Valid(_) => None,
            MaybeValidOwned::Invalid(_, r) => Some(r),
        }
    }

    /// Returns the precursor and reason on the invalid path, or `None` if valid.
    pub fn invalid_parts(self) -> (r: Option<(P, V::InvalidReason)>)
        ensures
            r == self.invalid_part(),
    {
        match self {
            MaybeValidOwned::Valid(_) => None,
            MaybeValidOwned::Invalid(p, r) => Some((p, r)),
        }
    }

    /// Returns a borrowed outcome with the same variant structure: `&V` on the
    /// valid path, `&P` and a clone of the reason on the invalid path.
    pub fn as_ref(&self) -> (r: MaybeValidRef<'_, V, P>)
        where V::InvalidReason: Clone,
        ensures
            match (*self, r) {
                (MaybeValidOwned::Valid(a), MaybeValidRef::Valid(b)) => a == *b,
                (MaybeValidOwned::Invalid(p, x), MaybeValidRef::Invalid(q, y)) => p == *q && cloned(x, y),
                _ => false,
            },
    {
        match self {
            MaybeValidOwned::Valid(v) => MaybeValidRef::Valid(v),
            MaybeValidOwned::Invalid(p, r) => MaybeValidRef::Invalid(p, r.clone()),
        }
    }

    /// Converts into a `Result`, bundling the precursor into the error.
    pub fn into_result(self) -> (r: Result<V, (P, V::InvalidReason)>)
        ensures
            r == self.result_view(),
    {
        match self {
            MaybeValidOwned::Valid(v) => Ok(v),
            MaybeValidOwned::Invalid(p, r) => Err((p, r)),
        }
    }

    /// Converts into a `Result` that carries only the reason on the error path.
    pub fn into_result_reason_only(self) -> (r: Result<V, V::InvalidReason>)
        ensures
            r == (match self.result_view() {
                Ok(v) => Ok(v),
                Err(parts) => Err(parts.1),
            }),
    {
        match self {
            MaybeValidOwned::Valid(v) => Ok(v),
            MaybeValidOwned::Invalid(_, r) => Err(r),
        }
    }
}

/// Borrows `Self` as a validated view of type `V`, if `self` satisfies
/// `V`'s predicate.
///
/// The conversion is a structural refinement: on the valid path the returned
/// `&V` aliases `self`; on the invalid path the outcome hands back `self`
/// itself together with the reason.
pub trait AsValidated<V: Validated + ?Sized> {
    /// Whether `self` satisfies `V`'s predicate; a function of `self` alone,
    /// so the classification is the same on every call.
    spec fn satisfies(&self) -> bool;

    /// Returns `Valid(&v)` when `self` satisfies `V`'s predicate, and
    /// `Invalid(self, reason)` otherwise.
    fn as_validated(&self) -> (r: MaybeValidRef<'_, V, Self>)
        ensures
            r is Valid <==> <Self as AsValidated<V>>::satisfies(self),
            r matches MaybeValidRef::Invalid(p, _) ==> p == self,
    ;
}

/// Consumes `Self` into a validated value of type `V`, if `self` satisfies
/// `V`'s predicate; on failure `self` comes back unchanged.
pub trait IntoValidated<V: Validated>: Sized {
    /// Whether `self` satisfies `V`'s predicate; a function of `self` alone,
    /// so the classification is the same on every call.
    spec fn satisfies(self) -> bool;

    /// Returns `Valid(v)` when `self` satisfies `V`'s predicate, and
    /// `Invalid(self, reason)` otherwise.
    fn into_validated(self) -> (r: MaybeValidOwned<V, Self>)
        ensures
            r is Valid <==> <Self as IntoValidated<V>>::satisfies(self),
            r matches MaybeValidOwned::Invalid(p, _) ==> p == self,
    ;
}

/// Calls `ToOwned::to_owned`. Nothing is claimed of the owned copy: the
/// trait's documentation promises no relation between it and the borrowed
/// value that could be stated for every implementation.
#[verifier::external_body]
fn owned_copy<T: std::borrow::ToOwned + ?Sized>(t: &T) -> T::Owned {
    t.to_owned()
}

impl<'a, V, P> MaybeValidRef<'a, V, P> where
    V: Validated + std::borrow::ToOwned + ?Sized,
    V::Owned: Validated<InvalidReason = V::InvalidReason>,
    P: std::borrow::ToOwned + ?Sized,
 {
    /// Produces an owned outcome by copying the borrowed `V` (or `P`) into its
    /// owned form; the variant and the reason are kept.
    pub fn into_owned(self) -> (r: MaybeValidOwned<V::Owned, P::Owned>)
        ensures
            r is Valid <==> self is Valid,
            self matches MaybeValidRef::Invalid(_, x) ==> (r matches MaybeValidOwned::Invalid(_, y) && x == y),
    {
        match self {
            MaybeValidRef::Valid(v) => MaybeValidOwned::Valid(owned_copy(v)),
            MaybeValidRef::Invalid(p, r) => MaybeValidOwned::Invalid(owned_copy(p), r),
        }
    }
}

} // verus!
