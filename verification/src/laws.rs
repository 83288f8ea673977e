use crate::complex::Complex;
use core::ops::{Add, Div, Mul, Neg, Sub};
use vstd::prelude::*;
use vstd::std_specs::ops::{AddSpec, DivSpec, MulSpec, NegSpec, SubSpec};

verus! {

// ---------------------------------------------------------------------------
// What is asked of a scalar type
// ---------------------------------------------------------------------------

/// The scalar sum does not depend on the order of its operands.
pub open spec fn scalar_add_commutes<T: Add<Output = T>>() -> bool {
    forall|a: T, b: T| #[trigger] a.add_spec(b) == b.add_spec(a)
}

/// The scalar product does not depend on the order of its operands.
pub open spec fn scalar_mul_commutes<T: Mul<Output = T>>() -> bool {
    forall|a: T, b: T| #[trigger] a.mul_spec(b) == b.mul_spec(a)
}

/// Wherever `b - a` and its negation are allowed, `a - b` is that negation.
pub open spec fn scalar_sub_antisymmetric<T: Sub<Output = T> + Neg<Output = T>>() -> bool {
    forall|a: T, b: T|
        b.sub_req(a) && (#[trigger] b.sub_spec(a)).neg_req() ==> a.sub_spec(b) == b.sub_spec(
            a,
        ).neg_spec()
}

/// Wherever a scalar may be negated, negating it twice gives it back.
pub open spec fn scalar_neg_involutive<T: Neg<Output = T>>() -> bool {
    forall|a: T| a.neg_req() ==> (#[trigger] a.neg_spec()).neg_spec() == a
}

// ---------------------------------------------------------------------------
// Complex with complex
// ---------------------------------------------------------------------------

/// The sum is taken component by component.
pub proof fn law_add_componentwise<T: Copy + Add<Output = T>>(x: Complex<T>, y: Complex<T>)
    ensures
        x.add_spec(y).real == x.real.add_spec(y.real),
        x.add_spec(y).imaginary == x.imaginary.add_spec(y.imaginary),
{
}

/// Over a scalar whose sum commutes, `x + y == y + x`.
pub proof fn law_add_commutative<T: Copy + Add<Output = T>>(x: Complex<T>, y: Complex<T>)
    requires
        scalar_add_commutes::<T>(),
    ensures
        x.add_spec(y) == y.add_spec(x),
{
}

/// The difference is taken component by component.
pub proof fn law_sub_componentwise<T: Copy + Sub<Output = T>>(x: Complex<T>, y: Complex<T>)
    ensures
        x.sub_spec(y).real == x.real.sub_spec(y.real),
        x.sub_spec(y).imaginary == x.imaginary.sub_spec(y.imaginary),
{
}

/// Over a scalar whose difference is antisymmetric, `x - y == -(y - x)`
/// wherever `y - x` and its negation are allowed.
pub proof fn law_sub_antisymmetric<T: Copy + Sub<Output = T> + Neg<Output = T>>(
    x: Complex<T>,
    y: Complex<T>,
)
    requires
        scalar_sub_antisymmetric::<T>(),
        y.sub_req(x),
        y.sub_spec(x).neg_req(),
    ensures
        x.sub_spec(y) == y.sub_spec(x).neg_spec(),
{
}

/// The product of `a + bi` and `c + di` is `(ac - bd) + (bc + da)i`.
pub proof fn law_mul_formula<T: Copy + Mul<Output = T> + Sub<Output = T> + Add<Output = T>>(
    x: Complex<T>,
    y: Complex<T>,
)
    ensures
        x.mul_spec(y).real == x.real.mul_spec(y.real).sub_spec(x.imaginary.mul_spec(y.imaginary)),
        x.mul_spec(y).imaginary == x.imaginary.mul_spec(y.real).add_spec(
            y.imaginary.mul_spec(x.real),
        ),
{
}

/// Over a scalar whose product and sum commute, `x * y == y * x`.
pub proof fn law_mul_commutative<T: Copy + Mul<Output = T> + Sub<Output = T> + Add<Output = T>>(
    x: Complex<T>,
    y: Complex<T>,
)
    requires
        scalar_mul_commutes::<T>(),
        scalar_add_commutes::<T>(),
    ensures
        x.mul_spec(y) == y.mul_spec(x),
{
}

/// Over a scalar whose negation is an involution, `-(-x) == x` wherever `x`
/// may be negated.
pub proof fn law_neg_involutive<T: Copy + Neg<Output = T>>(x: Complex<T>)
    requires
        scalar_neg_involutive::<T>(),
        x.neg_req(),
    ensures
        x.neg_spec().neg_spec() == x,
{
}

// ---------------------------------------------------------------------------
// Complex with scalar
// ---------------------------------------------------------------------------

/// Adding a scalar shifts the real component and leaves the imaginary one.
pub proof fn law_scalar_add_shifts_real<T: Copy + Add<Output = T>>(x: Complex<T>, s: T)
    ensures
        x.add_spec(s) == (Complex { real: x.real.add_spec(s), imaginary: x.imaginary }),
{
}

/// Subtracting a scalar shifts the real component and leaves the imaginary
/// one.
pub proof fn law_scalar_sub_shifts_real<T: Copy + Sub<Output = T>>(x: Complex<T>, s: T)
    ensures
        x.sub_spec(s) == (Complex { real: x.real.sub_spec(s), imaginary: x.imaginary }),
{
}

/// Multiplying by a scalar scales both components.
pub proof fn law_scalar_mul_scales_both<T: Copy + Mul<Output = T>>(x: Complex<T>, s: T)
    ensures
        x.mul_spec(s) == (Complex {
            real: x.real.mul_spec(s),
            imaginary: x.imaginary.mul_spec(s),
        }),
{
}

/// Dividing by a scalar scales both components.
pub proof fn law_scalar_div_scales_both<T: Copy + Div<Output = T>>(x: Complex<T>, s: T)
    ensures
        x.div_spec(s) == (Complex {
            real: x.real.div_spec(s),
            imaginary: x.imaginary.div_spec(s),
        }),
{
}

} // verus!
