use crate::complex::Complex;
use crate::integer::{
    lemma_norm_positive, lemma_product_numerators, lemma_quotient_times_divisor_is_close,
    lemma_quotient_times_divisor_is_exact, lemma_truncating_div_of_multiple, truncating_div,
};
use crate::laws::{
    scalar_add_commutes, scalar_mul_commutes, scalar_neg_involutive, scalar_sub_antisymmetric,
};
use crate::scalar::{IntegerScalar, SignedScalar};
use vstd::math::abs;
use vstd::prelude::*;
use vstd::std_specs::ops::{AddSpec, DivSpec, MulSpec, NegSpec, SubSpec};

verus! {

// The laws of complex arithmetic over every machine integer type, read in
// the integers: an operation is allowed exactly where no scalar step leaves
// the range of the type, and there its result is the one that the integers
// give.

/// Every machine integer type meets what the laws ask of a scalar's sum and
/// product.
pub proof fn lemma_scalar_laws<T: IntegerScalar>()
    ensures
        scalar_add_commutes::<T>(),
        scalar_mul_commutes::<T>(),
{
    assert forall|a: T, b: T| #[trigger] a.add_spec(b) == b.add_spec(a) by {
        T::lemma_sum_commutes(a, b);
    }
    assert forall|a: T, b: T| #[trigger] a.mul_spec(b) == b.mul_spec(a) by {
        T::lemma_product_commutes(a, b);
    }
}

/// Every signed machine integer type meets what the laws ask of a scalar's
/// difference and negation.
pub proof fn lemma_signed_scalar_laws<T: SignedScalar>()
    ensures
        scalar_sub_antisymmetric::<T>(),
        scalar_neg_involutive::<T>(),
{
    assert forall|a: T, b: T| b.sub_req(a) && (#[trigger] b.sub_spec(a)).neg_req() implies a.sub_spec(
        b,
    ) == b.sub_spec(a).neg_spec() by {
        T::lemma_negated_difference(a, b);
    }
    assert forall|a: T| a.neg_req() implies (#[trigger] a.neg_spec()).neg_spec() == a by {
        T::lemma_negation(a);
    }
}

/// Where `x + y` is allowed, its components are the integer sums.
pub proof fn law_add_exact<T: IntegerScalar>(x: Complex<T>, y: Complex<T>)
    requires
        x.add_req(y),
    ensures
        x.add_spec(y).real.value() == x.real.value() + y.real.value(),
        x.add_spec(y).imaginary.value() == x.imaginary.value() + y.imaginary.value(),
{
    T::lemma_sum(x.real, y.real);
    T::lemma_sum(x.imaginary, y.imaginary);
}

/// `x + y == y + x`, and the one is allowed exactly where the other is.
pub proof fn law_add_commutes<T: IntegerScalar>(x: Complex<T>, y: Complex<T>)
    ensures
        x.add_req(y) == y.add_req(x),
        x.add_spec(y) == y.add_spec(x),
{
    T::lemma_sum_commutes(x.real, y.real);
    T::lemma_sum_commutes(x.imaginary, y.imaginary);
}

/// Where `x - y` is allowed, its components are the integer differences.
pub proof fn law_sub_exact<T: IntegerScalar>(x: Complex<T>, y: Complex<T>)
    requires
        x.sub_req(y),
    ensures
        x.sub_spec(y).real.value() == x.real.value() - y.real.value(),
        x.sub_spec(y).imaginary.value() == x.imaginary.value() - y.imaginary.value(),
{
    T::lemma_difference(x.real, y.real);
    T::lemma_difference(x.imaginary, y.imaginary);
}

/// Where `y - x` and its negation are allowed, so is `x - y`, and
/// `x - y == -(y - x)`.
pub proof fn law_sub_is_negated_reverse<T: SignedScalar>(x: Complex<T>, y: Complex<T>)
    requires
        y.sub_req(x),
        y.sub_spec(x).neg_req(),
    ensures
        x.sub_req(y),
        x.sub_spec(y) == y.sub_spec(x).neg_spec(),
{
    T::lemma_negated_difference(x.real, y.real);
    T::lemma_negated_difference(x.imaginary, y.imaginary);
}

/// Where `x * y` is allowed, it is `(ac - bd) + (bc + ad)i` in the integers,
/// for `x = a + bi` and `y = c + di`.
pub proof fn law_mul_exact<T: IntegerScalar>(x: Complex<T>, y: Complex<T>)
    requires
        x.mul_req(y),
    ensures
        x.mul_spec(y).real.value() == x.real.value() * y.real.value() - x.imaginary.value()
            * y.imaginary.value(),
        x.mul_spec(y).imaginary.value() == x.imaginary.value() * y.real.value() + x.real.value()
            * y.imaginary.value(),
{
    T::lemma_product(x.real, y.real);
    T::lemma_product(x.imaginary, y.imaginary);
    T::lemma_difference(x.real.mul_spec(y.real), x.imaginary.mul_spec(y.imaginary));
    T::lemma_product(x.imaginary, y.real);
    T::lemma_product(y.imaginary, x.real);
    T::lemma_sum(x.imaginary.mul_spec(y.real), y.imaginary.mul_spec(x.real));
    assert(y.imaginary.value() * x.real.value() == x.real.value() * y.imaginary.value())
        by (nonlinear_arith);
}

/// `x * y == y * x`, and the one is allowed exactly where the other is.
pub proof fn law_mul_commutes<T: IntegerScalar>(x: Complex<T>, y: Complex<T>)
    ensures
        x.mul_req(y) == y.mul_req(x),
        x.mul_spec(y) == y.mul_spec(x),
{
    T::lemma_product_commutes(x.real, y.real);
    T::lemma_product_commutes(x.imaginary, y.imaginary);
    T::lemma_product_commutes(x.imaginary, y.real);
    T::lemma_product_commutes(y.imaginary, x.real);
    T::lemma_sum_commutes(x.imaginary.mul_spec(y.real), y.imaginary.mul_spec(x.real));
}

/// Where `x` may be negated, so may `-x`, and `-(-x) == x`.
pub proof fn law_neg_is_involution<T: SignedScalar>(x: Complex<T>)
    requires
        x.neg_req(),
    ensures
        x.neg_spec().neg_req(),
        x.neg_spec().neg_spec() == x,
{
    T::lemma_negation(x.real);
    T::lemma_negation(x.imaginary);
}

/// Where `x / y` is allowed, `y` is not zero and the components of the
/// quotient are the two numerators over `c * c + d * d`, rounded toward zero.
pub proof fn law_div_exact<T: IntegerScalar>(x: Complex<T>, y: Complex<T>)
    requires
        x.div_req(y),
    ensures
        !(y.real.value() == 0 && y.imaginary.value() == 0),
        x.div_spec(y).real.value() == truncating_div(
            x.real.value() * y.real.value() + x.imaginary.value() * y.imaginary.value(),
            y.real.value() * y.real.value() + y.imaginary.value() * y.imaginary.value(),
        ),
        x.div_spec(y).imaginary.value() == truncating_div(
            x.imaginary.value() * y.real.value() - x.real.value() * y.imaginary.value(),
            y.real.value() * y.real.value() + y.imaginary.value() * y.imaginary.value(),
        ),
{
    T::lemma_product(y.real, y.real);
    T::lemma_product(y.imaginary, y.imaginary);
    T::lemma_sum(y.real.mul_spec(y.real), y.imaginary.mul_spec(y.imaginary));
    T::lemma_product(x.real, y.real);
    T::lemma_product(x.imaginary, y.imaginary);
    T::lemma_sum(x.real.mul_spec(y.real), x.imaginary.mul_spec(y.imaginary));
    T::lemma_product(x.imaginary, y.real);
    T::lemma_product(x.real, y.imaginary);
    T::lemma_difference(x.imaginary.mul_spec(y.real), x.real.mul_spec(y.imaginary));
    T::lemma_quotient(x.quotient_real_numerator(y), y.norm_spec());
    T::lemma_quotient(x.quotient_imaginary_numerator(y), y.norm_spec());
    lemma_norm_positive(y.real.value(), y.imaginary.value());
}

/// Division undoes multiplication: where `q * y` and `(q * y) / y` are
/// allowed, the quotient is `q`, so that `((q * y) / y) * y == q * y`.
pub proof fn law_div_undoes_mul<T: IntegerScalar>(q: Complex<T>, y: Complex<T>)
    requires
        q.mul_req(y),
        q.mul_spec(y).div_req(y),
    ensures
        q.mul_spec(y).div_spec(y) == q,
        q.mul_spec(y).div_spec(y).mul_req(y),
        q.mul_spec(y).div_spec(y).mul_spec(y) == q.mul_spec(y),
{
    let x = q.mul_spec(y);
    let m = y.real.value() * y.real.value() + y.imaginary.value() * y.imaginary.value();
    law_mul_exact(q, y);
    law_div_exact(x, y);
    lemma_norm_positive(y.real.value(), y.imaginary.value());
    lemma_product_numerators(
        q.real.value(),
        q.imaginary.value(),
        y.real.value(),
        y.imaginary.value(),
    );
    assert(q.imaginary.value() * y.real.value() + q.real.value() * y.imaginary.value()
        == q.imaginary.value() * y.real.value() + y.imaginary.value() * q.real.value())
        by (nonlinear_arith);
    lemma_truncating_div_of_multiple(q.real.value(), m);
    lemma_truncating_div_of_multiple(q.imaginary.value(), m);
    T::lemma_value_is_injective(x.div_spec(y).real, q.real);
    T::lemma_value_is_injective(x.div_spec(y).imaginary, q.imaginary);
}

/// `(x / y) * y == x` where the division leaves nothing over: where both
/// operations are allowed and `c * c + d * d` divides the two numerators
/// `ac + bd` and `bc - ad`, for `x = a + bi` and `y = c + di`.
pub proof fn law_div_then_mul_is_exact<T: IntegerScalar>(x: Complex<T>, y: Complex<T>)
    requires
        x.div_req(y),
        x.div_spec(y).mul_req(y),
        (x.real.value() * y.real.value() + x.imaginary.value() * y.imaginary.value()) % (
        y.real.value() * y.real.value() + y.imaginary.value() * y.imaginary.value()) == 0,
        (x.imaginary.value() * y.real.value() - x.real.value() * y.imaginary.value()) % (
        y.real.value() * y.real.value() + y.imaginary.value() * y.imaginary.value()) == 0,
    ensures
        x.div_spec(y).mul_spec(y) == x,
{
    let back = x.div_spec(y).mul_spec(y);
    law_div_exact(x, y);
    law_mul_exact(x.div_spec(y), y);
    lemma_quotient_times_divisor_is_exact(
        x.real.value(),
        x.imaginary.value(),
        y.real.value(),
        y.imaginary.value(),
    );
    T::lemma_value_is_injective(back.real, x.real);
    T::lemma_value_is_injective(back.imaginary, x.imaginary);
}

/// `(x / y) * y` is close to `x`: where both operations are allowed, each
/// component of the one differs from that of the other by less than
/// `|c| + |d|`, for `y = c + di`.
pub proof fn law_div_then_mul_is_close<T: IntegerScalar>(x: Complex<T>, y: Complex<T>)
    requires
        x.div_req(y),
        x.div_spec(y).mul_req(y),
    ensures
        ({
            let back = x.div_spec(y).mul_spec(y);
            let bound = abs(y.real.value()) + abs(y.imaginary.value());
            &&& -bound < x.real.value() - back.real.value() < bound
            &&& -bound < x.imaginary.value() - back.imaginary.value() < bound
        }),
{
    law_div_exact(x, y);
    law_mul_exact(x.div_spec(y), y);
    lemma_quotient_times_divisor_is_close(
        x.real.value(),
        x.imaginary.value(),
        y.real.value(),
        y.imaginary.value(),
    );
}

} // verus!
