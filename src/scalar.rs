use vstd::prelude::*;

verus! {

/// The number type the geometry computes with.
///
/// Each operation is a function of its operands: the exec method returns
/// exactly what its spec counterpart names. Nothing else is assumed of the
/// arithmetic, so what the library proves holds for rounded arithmetic too.
pub trait Scalar: Copy + Sized {
    spec fn spec_add(self, rhs: Self) -> Self;

    spec fn spec_sub(self, rhs: Self) -> Self;

    spec fn spec_mul(self, rhs: Self) -> Self;

    spec fn spec_div(self, rhs: Self) -> Self;

    spec fn spec_sqrt(self) -> Self;

    spec fn spec_gt(self, rhs: Self) -> bool;

    spec fn spec_ge(self, rhs: Self) -> bool;

    /// The number nearest to `num / den`.
    spec fn spec_ratio(num: i64, den: i64) -> Self;

    fn add(self, rhs: Self) -> (r: Self)
        ensures
            r == self.spec_add(rhs),
    ;

    fn sub(self, rhs: Self) -> (r: Self)
        ensures
            r == self.spec_sub(rhs),
    ;

    fn mul(self, rhs: Self) -> (r: Self)
        ensures
            r == self.spec_mul(rhs),
    ;

    fn div(self, rhs: Self) -> (r: Self)
        ensures
            r == self.spec_div(rhs),
    ;

    fn sqrt(self) -> (r: Self)
        ensures
            r == self.spec_sqrt(),
    ;

    fn gt(self, rhs: Self) -> (r: bool)
        ensures
            r == self.spec_gt(rhs),
    ;

    fn ge(self, rhs: Self) -> (r: bool)
        ensures
            r == self.spec_ge(rhs),
    ;

    fn ratio(num: i64, den: i64) -> (r: Self)
        requires
            den != 0,
        ensures
            r == Self::spec_ratio(num, den),
    ;
}

} // verus!
