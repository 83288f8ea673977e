use crate::integer::truncating_div;
use core::ops::{Add, Div, Mul, Neg, Sub};
use vstd::prelude::*;
use vstd::std_specs::ops::{AddSpec, DivSpec, MulSpec, NegSpec, SubSpec};

verus! {

/// A machine integer type, read in the integers: each scalar stands for one
/// integer, an operation is allowed where its result is in range, and there
/// it gives what the integers give.
pub trait IntegerScalar: Copy + Add<Output = Self> + Sub<Output = Self> + Mul<Output = Self> + Div<
    Output = Self,
> {
    /// The integer that the scalar stands for.
    spec fn value(self) -> int;

    /// The four operators are held to their specifications.
    proof fn lemma_operators_obey()
        ensures
            Self::obeys_add_spec(),
            Self::obeys_sub_spec(),
            Self::obeys_mul_spec(),
            Self::obeys_div_spec(),
    ;

    /// Two scalars that stand for the same integer are the same scalar.
    proof fn lemma_value_is_injective(a: Self, b: Self)
        requires
            a.value() == b.value(),
        ensures
            a == b,
    ;

    /// An allowed sum is the integer sum.
    proof fn lemma_sum(a: Self, b: Self)
        requires
            a.add_req(b),
        ensures
            a.add_spec(b).value() == a.value() + b.value(),
    ;

    /// The sum does not depend on the order of its operands, allowed or not.
    proof fn lemma_sum_commutes(a: Self, b: Self)
        ensures
            a.add_req(b) == b.add_req(a),
            a.add_spec(b) == b.add_spec(a),
    ;

    /// An allowed difference is the integer difference.
    proof fn lemma_difference(a: Self, b: Self)
        requires
            a.sub_req(b),
        ensures
            a.sub_spec(b).value() == a.value() - b.value(),
    ;

    /// An allowed product is the integer product.
    proof fn lemma_product(a: Self, b: Self)
        requires
            a.mul_req(b),
        ensures
            a.mul_spec(b).value() == a.value() * b.value(),
    ;

    /// The product does not depend on the order of its operands, allowed or
    /// not.
    proof fn lemma_product_commutes(a: Self, b: Self)
        ensures
            a.mul_req(b) == b.mul_req(a),
            a.mul_spec(b) == b.mul_spec(a),
    ;

    /// A quotient is allowed only by a divisor other than zero, and by a
    /// positive divisor it is the integer quotient rounded toward zero.
    proof fn lemma_quotient(a: Self, b: Self)
        requires
            a.div_req(b),
        ensures
            b.value() != 0,
            b.value() > 0 ==> a.div_spec(b).value() == truncating_div(a.value(), b.value()),
    ;
}

/// A machine integer type with a negation.
pub trait SignedScalar: IntegerScalar + Neg<Output = Self> {
    /// The negation is held to its specification.
    proof fn lemma_negation_obeys()
        ensures
            Self::obeys_neg_spec(),
    ;

    /// An allowed negation is the integer negation, and may be negated back.
    proof fn lemma_negation(a: Self)
        requires
            a.neg_req(),
        ensures
            a.neg_spec().value() == -a.value(),
            a.neg_spec().neg_req(),
            a.neg_spec().neg_spec() == a,
    ;

    /// Where `b - a` and its negation are allowed, so is `a - b`, and it is
    /// that negation.
    proof fn lemma_negated_difference(a: Self, b: Self)
        requires
            b.sub_req(a),
            b.sub_spec(a).neg_req(),
        ensures
            a.sub_req(b),
            a.sub_spec(b) == b.sub_spec(a).neg_spec(),
    ;
}

impl IntegerScalar for i8 {
    open spec fn value(self) -> int {
        self as int
    }

    proof fn lemma_operators_obey() {
    }

    proof fn lemma_value_is_injective(a: Self, b: Self) {
    }

    proof fn lemma_sum(a: Self, b: Self) {
    }

    proof fn lemma_sum_commutes(a: Self, b: Self) {
    }

    proof fn lemma_difference(a: Self, b: Self) {
    }

    proof fn lemma_product(a: Self, b: Self) {
    }

    proof fn lemma_product_commutes(a: Self, b: Self) {
        assert(a * b == b * a) by (nonlinear_arith);
    }

    proof fn lemma_quotient(a: Self, b: Self) {
    }
}

impl SignedScalar for i8 {
    proof fn lemma_negation_obeys() {
    }

    proof fn lemma_negation(a: Self) {
    }

    proof fn lemma_negated_difference(a: Self, b: Self) {
    }
}

impl IntegerScalar for i16 {
    open spec fn value(self) -> int {
        self as int
    }

    proof fn lemma_operators_obey() {
    }

    proof fn lemma_value_is_injective(a: Self, b: Self) {
    }

    proof fn lemma_sum(a: Self, b: Self) {
    }

    proof fn lemma_sum_commutes(a: Self, b: Self) {
    }

    proof fn lemma_difference(a: Self, b: Self) {
    }

    proof fn lemma_product(a: Self, b: Self) {
    }

    proof fn lemma_product_commutes(a: Self, b: Self) {
        assert(a * b == b * a) by (nonlinear_arith);
    }

    proof fn lemma_quotient(a: Self, b: Self) {
    }
}

impl SignedScalar for i16 {
    proof fn lemma_negation_obeys() {
    }

    proof fn lemma_negation(a: Self) {
    }

    proof fn lemma_negated_difference(a: Self, b: Self) {
    }
}

impl IntegerScalar for i32 {
    open spec fn value(self) -> int {
        self as int
    }

    proof fn lemma_operators_obey() {
    }

    proof fn lemma_value_is_injective(a: Self, b: Self) {
    }

    proof fn lemma_sum(a: Self, b: Self) {
    }

    proof fn lemma_sum_commutes(a: Self, b: Self) {
    }

    proof fn lemma_difference(a: Self, b: Self) {
    }

    proof fn lemma_product(a: Self, b: Self) {
    }

    proof fn lemma_product_commutes(a: Self, b: Self) {
        assert(a * b == b * a) by (nonlinear_arith);
    }

    proof fn lemma_quotient(a: Self, b: Self) {
    }
}

impl SignedScalar for i32 {
    proof fn lemma_negation_obeys() {
    }

    proof fn lemma_negation(a: Self) {
    }

    proof fn lemma_negated_difference(a: Self, b: Self) {
    }
}

impl IntegerScalar for i64 {
    open spec fn value(self) -> int {
        self as int
    }

    proof fn lemma_operators_obey() {
    }

    proof fn lemma_value_is_injective(a: Self, b: Self) {
    }

    proof fn lemma_sum(a: Self, b: Self) {
    }

    proof fn lemma_sum_commutes(a: Self, b: Self) {
    }

    proof fn lemma_difference(a: Self, b: Self) {
    }

    proof fn lemma_product(a: Self, b: Self) {
    }

    proof fn lemma_product_commutes(a: Self, b: Self) {
        assert(a * b == b * a) by (nonlinear_arith);
    }

    proof fn lemma_quotient(a: Self, b: Self) {
    }
}

impl SignedScalar for i64 {
    proof fn lemma_negation_obeys() {
    }

    proof fn lemma_negation(a: Self) {
    }

    proof fn lemma_negated_difference(a: Self, b: Self) {
    }
}

impl IntegerScalar for i128 {
    open spec fn value(self) -> int {
        self as int
    }

    proof fn lemma_operators_obey() {
    }

    proof fn lemma_value_is_injective(a: Self, b: Self) {
    }

    proof fn lemma_sum(a: Self, b: Self) {
    }

    proof fn lemma_sum_commutes(a: Self, b: Self) {
    }

    proof fn lemma_difference(a: Self, b: Self) {
    }

    proof fn lemma_product(a: Self, b: Self) {
    }

    proof fn lemma_product_commutes(a: Self, b: Self) {
        assert(a * b == b * a) by (nonlinear_arith);
    }

    proof fn lemma_quotient(a: Self, b: Self) {
    }
}

impl SignedScalar for i128 {
    proof fn lemma_negation_obeys() {
    }

    proof fn lemma_negation(a: Self) {
    }

    proof fn lemma_negated_difference(a: Self, b: Self) {
    }
}

impl IntegerScalar for isize {
    open spec fn value(self) -> int {
        self as int
    }

    proof fn lemma_operators_obey() {
    }

    proof fn lemma_value_is_injective(a: Self, b: Self) {
    }

    proof fn lemma_sum(a: Self, b: Self) {
    }

    proof fn lemma_sum_commutes(a: Self, b: Self) {
    }

    proof fn lemma_difference(a: Self, b: Self) {
    }

    proof fn lemma_product(a: Self, b: Self) {
    }

    proof fn lemma_product_commutes(a: Self, b: Self) {
        assert(a * b == b * a) by (nonlinear_arith);
    }

    proof fn lemma_quotient(a: Self, b: Self) {
    }
}

impl SignedScalar for isize {
    proof fn lemma_negation_obeys() {
    }

    proof fn lemma_negation(a: Self) {
    }

    proof fn lemma_negated_difference(a: Self, b: Self) {
    }
}

impl IntegerScalar for u8 {
    open spec fn value(self) -> int {
        self as int
    }

    proof fn lemma_operators_obey() {
    }

    proof fn lemma_value_is_injective(a: Self, b: Self) {
    }

    proof fn lemma_sum(a: Self, b: Self) {
    }

    proof fn lemma_sum_commutes(a: Self, b: Self) {
    }

    proof fn lemma_difference(a: Self, b: Self) {
    }

    proof fn lemma_product(a: Self, b: Self) {
    }

    proof fn lemma_product_commutes(a: Self, b: Self) {
        assert(a * b == b * a) by (nonlinear_arith);
    }

    proof fn lemma_quotient(a: Self, b: Self) {
    }
}

impl IntegerScalar for u16 {
    open spec fn value(self) -> int {
        self as int
    }

    proof fn lemma_operators_obey() {
    }

    proof fn lemma_value_is_injective(a: Self, b: Self) {
    }

    proof fn lemma_sum(a: Self, b: Self) {
    }

    proof fn lemma_sum_commutes(a: Self, b: Self) {
    }

    proof fn lemma_difference(a: Self, b: Self) {
    }

    proof fn lemma_product(a: Self, b: Self) {
    }

    proof fn lemma_product_commutes(a: Self, b: Self) {
        assert(a * b == b * a) by (nonlinear_arith);
    }

    proof fn lemma_quotient(a: Self, b: Self) {
    }
}

impl IntegerScalar for u32 {
    open spec fn value(self) -> int {
        self as int
    }

    proof fn lemma_operators_obey() {
    }

    proof fn lemma_value_is_injective(a: Self, b: Self) {
    }

    proof fn lemma_sum(a: Self, b: Self) {
    }

    proof fn lemma_sum_commutes(a: Self, b: Self) {
    }

    proof fn lemma_difference(a: Self, b: Self) {
    }

    proof fn lemma_product(a: Self, b: Self) {
    }

    proof fn lemma_product_commutes(a: Self, b: Self) {
        assert(a * b == b * a) by (nonlinear_arith);
    }

    proof fn lemma_quotient(a: Self, b: Self) {
    }
}

impl IntegerScalar for u64 {
    open spec fn value(self) -> int {
        self as int
    }

    proof fn lemma_operators_obey() {
    }

    proof fn lemma_value_is_injective(a: Self, b: Self) {
    }

    proof fn lemma_sum(a: Self, b: Self) {
    }

    proof fn lemma_sum_commutes(a: Self, b: Self) {
    }

    proof fn lemma_difference(a: Self, b: Self) {
    }

    proof fn lemma_product(a: Self, b: Self) {
    }

    proof fn lemma_product_commutes(a: Self, b: Self) {
        assert(a * b == b * a) by (nonlinear_arith);
    }

    proof fn lemma_quotient(a: Self, b: Self) {
    }
}

impl IntegerScalar for u128 {
    open spec fn value(self) -> int {
        self as int
    }

    proof fn lemma_operators_obey() {
    }

    proof fn lemma_value_is_injective(a: Self, b: Self) {
    }

    proof fn lemma_sum(a: Self, b: Self) {
    }

    proof fn lemma_sum_commutes(a: Self, b: Self) {
    }

    proof fn lemma_difference(a: Self, b: Self) {
    }

    proof fn lemma_product(a: Self, b: Self) {
    }

    proof fn lemma_product_commutes(a: Self, b: Self) {
        assert(a * b == b * a) by (nonlinear_arith);
    }

    proof fn lemma_quotient(a: Self, b: Self) {
    }
}

impl IntegerScalar for usize {
    open spec fn value(self) -> int {
        self as int
    }

    proof fn lemma_operators_obey() {
    }

    proof fn lemma_value_is_injective(a: Self, b: Self) {
    }

    proof fn lemma_sum(a: Self, b: Self) {
    }

    proof fn lemma_sum_commutes(a: Self, b: Self) {
    }

    proof fn lemma_difference(a: Self, b: Self) {
    }

    proof fn lemma_product(a: Self, b: Self) {
    }

    proof fn lemma_product_commutes(a: Self, b: Self) {
        assert(a * b == b * a) by (nonlinear_arith);
    }

    proof fn lemma_quotient(a: Self, b: Self) {
    }
}

} // verus!
