use vstd::prelude::*;

verus! {

/// The scalar a caller measures connectors in.
///
/// The scheduler never does arithmetic on lengths itself: it only decides
/// which stored length applies and how far along a ramp is, and leaves the
/// arithmetic to the caller's scalar type. The spec functions name what each
/// operation gives, so that contracts can say which values a result is made
/// from.
pub trait Length: Copy + Sized {
    /// The point `elapsed / total` of the way from `from` to `to`.
    spec fn spec_interpolate(from: Self, to: Self, elapsed: u16, total: u16) -> Self;

    /// This length multiplied by `factor`.
    spec fn spec_scaled(self, factor: Self) -> Self;

    /// Whether this value is greater than zero.
    spec fn spec_positive(self) -> bool;

    /// The additive zero of the scalar.
    fn zero() -> Self;

    fn interpolate(from: Self, to: Self, elapsed: u16, total: u16) -> (r: Self)
        requires
            0 < elapsed,
            elapsed < total,
        ensures
            r == Self::spec_interpolate(from, to, elapsed, total),
    ;

    fn scaled(self, factor: Self) -> (r: Self)
        ensures
            r == self.spec_scaled(factor),
    ;

    fn is_positive(&self) -> (r: bool)
        ensures
            r == self.spec_positive(),
    ;
}

} // verus!
