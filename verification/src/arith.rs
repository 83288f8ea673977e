use crate::complex::Complex;
use core::ops::{Add, Div, Mul, Neg, Sub};
use vstd::prelude::*;
use vstd::std_specs::ops::{AddSpec, DivSpec, MulSpec, NegSpec, SubSpec};

verus! {

// Each operator is stated over the scalar's own operator specifications:
// `*_req` says where the operation is allowed, which is where every scalar
// step of it is; `*_spec` says what it returns; `obeys_*_spec` says for which
// scalars the executable operator is held to that.

// ---------------------------------------------------------------------------
// Addition
// ---------------------------------------------------------------------------

impl<T: Copy + Add<Output = T>> vstd::std_specs::ops::AddSpecImpl<Complex<T>> for Complex<T> {
    open spec fn obeys_add_spec() -> bool {
        T::obeys_add_spec()
    }

    open spec fn add_req(self, rhs: Complex<T>) -> bool {
        &&& self.real.add_req(rhs.real)
        &&& self.imaginary.add_req(rhs.imaginary)
    }

    open spec fn add_spec(self, rhs: Complex<T>) -> Complex<T> {
        Complex {
            real: self.real.add_spec(rhs.real),
            imaginary: self.imaginary.add_spec(rhs.imaginary),
        }
    }
}

impl<T: Copy + Add<Output = T>> Add<Complex<T>> for Complex<T> {
    type Output = Complex<T>;

    /// `(a + bi) + (c + di) = (a + c) + (b + d)i`, allowed where
    /// `self.add_req(rhs)`.
    fn add(self, rhs: Complex<T>) -> (out: Complex<T>)
        ensures
            T::obeys_add_spec() ==> out == (Complex {
                real: self.real.add_spec(rhs.real),
                imaginary: self.imaginary.add_spec(rhs.imaginary),
            }),
    {
        Complex::new(self.real + rhs.real, self.imaginary + rhs.imaginary)
    }
}

impl<T: Copy + Add<Output = T>> vstd::std_specs::ops::AddSpecImpl<T> for Complex<T> {
    open spec fn obeys_add_spec() -> bool {
        T::obeys_add_spec()
    }

    open spec fn add_req(self, rhs: T) -> bool {
        self.real.add_req(rhs)
    }

    open spec fn add_spec(self, rhs: T) -> Complex<T> {
        Complex { real: self.real.add_spec(rhs), imaginary: self.imaginary }
    }
}

impl<T: Copy + Add<Output = T>> Add<T> for Complex<T> {
    type Output = Complex<T>;

    /// `(a + bi) + s = (a + s) + bi`: a shift along the real axis, allowed
    /// where `self.add_req(rhs)`.
    fn add(self, rhs: T) -> (out: Complex<T>)
        ensures
            T::obeys_add_spec() ==> out.real == self.real.add_spec(rhs),
            out.imaginary == self.imaginary,
    {
        Complex::new(self.real + rhs, self.imaginary)
    }
}

// ---------------------------------------------------------------------------
// Subtraction
// ---------------------------------------------------------------------------

impl<T: Copy + Sub<Output = T>> vstd::std_specs::ops::SubSpecImpl<Complex<T>> for Complex<T> {
    open spec fn obeys_sub_spec() -> bool {
        T::obeys_sub_spec()
    }

    open spec fn sub_req(self, rhs: Complex<T>) -> bool {
        &&& self.real.sub_req(rhs.real)
        &&& self.imaginary.sub_req(rhs.imaginary)
    }

    open spec fn sub_spec(self, rhs: Complex<T>) -> Complex<T> {
        Complex {
            real: self.real.sub_spec(rhs.real),
            imaginary: self.imaginary.sub_spec(rhs.imaginary),
        }
    }
}

impl<T: Copy + Sub<Output = T>> Sub<Complex<T>> for Complex<T> {
    type Output = Complex<T>;

    /// `(a + bi) - (c + di) = (a - c) + (b - d)i`, allowed where
    /// `self.sub_req(rhs)`.
    fn sub(self, rhs: Complex<T>) -> (out: Complex<T>)
        ensures
            T::obeys_sub_spec() ==> out == (Complex {
                real: self.real.sub_spec(rhs.real),
                imaginary: self.imaginary.sub_spec(rhs.imaginary),
            }),
    {
        Complex::new(self.real - rhs.real, self.imaginary - rhs.imaginary)
    }
}

impl<T: Copy + Sub<Output = T>> vstd::std_specs::ops::SubSpecImpl<T> for Complex<T> {
    open spec fn obeys_sub_spec() -> bool {
        T::obeys_sub_spec()
    }

    open spec fn sub_req(self, rhs: T) -> bool {
        self.real.sub_req(rhs)
    }

    open spec fn sub_spec(self, rhs: T) -> Complex<T> {
        Complex { real: self.real.sub_spec(rhs), imaginary: self.imaginary }
    }
}

impl<T: Copy + Sub<Output = T>> Sub<T> for Complex<T> {
    type Output = Complex<T>;

    /// `(a + bi) - s = (a - s) + bi`: a shift along the real axis, allowed
    /// where `self.sub_req(rhs)`.
    fn sub(self, rhs: T) -> (out: Complex<T>)
        ensures
            T::obeys_sub_spec() ==> out.real == self.real.sub_spec(rhs),
            out.imaginary == self.imaginary,
    {
        Complex::new(self.real - rhs, self.imaginary)
    }
}

// ---------------------------------------------------------------------------
// Multiplication
// ---------------------------------------------------------------------------

impl<T: Copy + Mul<Output = T> + Sub<Output = T> + Add<Output = T>> vstd::std_specs::ops::MulSpecImpl<Complex<T>> for Complex<T> {
    open spec fn obeys_mul_spec() -> bool {
        &&& T::obeys_mul_spec()
        &&& T::obeys_sub_spec()
        &&& T::obeys_add_spec()
    }

    /// Every scalar step of the product is allowed. The inner products feed
    /// the outer sum and difference, so the scalar product has to obey its
    /// specification for those to be spoken of.
    open spec fn mul_req(self, rhs: Complex<T>) -> bool {
        &&& T::obeys_mul_spec()
        &&& self.real.mul_req(rhs.real)
        &&& self.imaginary.mul_req(rhs.imaginary)
        &&& self.real.mul_spec(rhs.real).sub_req(self.imaginary.mul_spec(rhs.imaginary))
        &&& self.imaginary.mul_req(rhs.real)
        &&& rhs.imaginary.mul_req(self.real)
        &&& self.imaginary.mul_spec(rhs.real).add_req(rhs.imaginary.mul_spec(self.real))
    }

    open spec fn mul_spec(self, rhs: Complex<T>) -> Complex<T> {
        Complex {
            real: self.real.mul_spec(rhs.real).sub_spec(self.imaginary.mul_spec(rhs.imaginary)),
            imaginary: self.imaginary.mul_spec(rhs.real).add_spec(
                rhs.imaginary.mul_spec(self.real),
            ),
        }
    }
}

impl<T: Copy + Mul<Output = T> + Sub<Output = T> + Add<Output = T>> Mul<Complex<T>> for Complex<T> {
    type Output = Complex<T>;

    /// `(a + bi) * (c + di) = (ac - bd) + (bc + da)i`, in this grouping,
    /// allowed where `self.mul_req(rhs)`.
    fn mul(self, rhs: Complex<T>) -> (out: Complex<T>)
        ensures
            T::obeys_sub_spec() && T::obeys_add_spec() ==> out == (Complex {
                real: self.real.mul_spec(rhs.real).sub_spec(
                    self.imaginary.mul_spec(rhs.imaginary),
                ),
                imaginary: self.imaginary.mul_spec(rhs.real).add_spec(
                    rhs.imaginary.mul_spec(self.real),
                ),
            }),
    {
        let re: T = self.real * rhs.real - (self.imaginary * rhs.imaginary);
        let im: T = self.imaginary * rhs.real + (rhs.imaginary * self.real);
        Complex::new(re, im)
    }
}

impl<T: Copy + Mul<Output = T>> vstd::std_specs::ops::MulSpecImpl<T> for Complex<T> {
    open spec fn obeys_mul_spec() -> bool {
        T::obeys_mul_spec()
    }

    open spec fn mul_req(self, rhs: T) -> bool {
        &&& self.real.mul_req(rhs)
        &&& self.imaginary.mul_req(rhs)
    }

    open spec fn mul_spec(self, rhs: T) -> Complex<T> {
        Complex { real: self.real.mul_spec(rhs), imaginary: self.imaginary.mul_spec(rhs) }
    }
}

impl<T: Copy + Mul<Output = T>> Mul<T> for Complex<T> {
    type Output = Complex<T>;

    /// `(a + bi) * s = (as) + (bs)i`: a uniform scaling, allowed where
    /// `self.mul_req(rhs)`.
    fn mul(self, rhs: T) -> (out: Complex<T>)
        ensures
            T::obeys_mul_spec() ==> out == (Complex {
                real: self.real.mul_spec(rhs),
                imaginary: self.imaginary.mul_spec(rhs),
            }),
    {
        let re: T = self.real * rhs;
        let im: T = self.imaginary * rhs;
        Complex::new(re, im)
    }
}

// ---------------------------------------------------------------------------
// Division
// ---------------------------------------------------------------------------

impl<T: Copy + Mul<Output = T> + Add<Output = T> + Div<Output = T> + Sub<Output = T>> Complex<T> {
    /// `c * c + d * d` for `self = c + di`: the common denominator of a
    /// quotient by `self`.
    pub open spec fn norm_spec(self) -> T {
        self.real.mul_spec(self.real).add_spec(self.imaginary.mul_spec(self.imaginary))
    }

    /// `ac + bd` for `self = a + bi` and `rhs = c + di`: the numerator of
    /// the real part of `self / rhs`.
    pub open spec fn quotient_real_numerator(self, rhs: Complex<T>) -> T {
        self.real.mul_spec(rhs.real).add_spec(self.imaginary.mul_spec(rhs.imaginary))
    }

    /// `bc - ad` for `self = a + bi` and `rhs = c + di`: the numerator of
    /// the imaginary part of `self / rhs`.
    pub open spec fn quotient_imaginary_numerator(self, rhs: Complex<T>) -> T {
        self.imaginary.mul_spec(rhs.real).sub_spec(self.real.mul_spec(rhs.imaginary))
    }
}

impl<T: Copy + Mul<Output = T> + Add<Output = T> + Div<Output = T> + Sub<Output = T>> vstd::std_specs::ops::DivSpecImpl<Complex<T>> for Complex<T> {
    open spec fn obeys_div_spec() -> bool {
        &&& T::obeys_mul_spec()
        &&& T::obeys_add_spec()
        &&& T::obeys_sub_spec()
        &&& T::obeys_div_spec()
    }

    /// Every scalar step of the quotient is allowed. No guard of this type's
    /// own is put on the divisor: whether a zero denominator is admitted is
    /// what the scalar's own `div_req` says of it.
    open spec fn div_req(self, rhs: Complex<T>) -> bool {
        &&& T::obeys_mul_spec()
        &&& T::obeys_add_spec()
        &&& T::obeys_sub_spec()
        &&& rhs.real.mul_req(rhs.real)
        &&& rhs.imaginary.mul_req(rhs.imaginary)
        &&& rhs.real.mul_spec(rhs.real).add_req(rhs.imaginary.mul_spec(rhs.imaginary))
        &&& self.real.mul_req(rhs.real)
        &&& self.imaginary.mul_req(rhs.imaginary)
        &&& self.real.mul_spec(rhs.real).add_req(self.imaginary.mul_spec(rhs.imaginary))
        &&& self.quotient_real_numerator(rhs).div_req(rhs.norm_spec())
        &&& self.imaginary.mul_req(rhs.real)
        &&& self.real.mul_req(rhs.imaginary)
        &&& self.imaginary.mul_spec(rhs.real).sub_req(self.real.mul_spec(rhs.imaginary))
        &&& self.quotient_imaginary_numerator(rhs).div_req(rhs.norm_spec())
    }

    open spec fn div_spec(self, rhs: Complex<T>) -> Complex<T> {
        Complex {
            real: self.quotient_real_numerator(rhs).div_spec(rhs.norm_spec()),
            imaginary: self.quotient_imaginary_numerator(rhs).div_spec(rhs.norm_spec()),
        }
    }
}

impl<T: Copy + Mul<Output = T> + Add<Output = T> + Div<Output = T> + Sub<Output = T>> Div<Complex<T>> for Complex<T> {
    type Output = Complex<T>;

    /// `(a + bi) / (c + di) = ((ac + bd) / (cc + dd)) + ((bc - ad) / (cc + dd))i`,
    /// allowed where `self.div_req(rhs)`.
    fn div(self, rhs: Complex<T>) -> (out: Complex<T>)
        ensures
            T::obeys_div_spec() ==> out == (Complex {
                real: self.quotient_real_numerator(rhs).div_spec(rhs.norm_spec()),
                imaginary: self.quotient_imaginary_numerator(rhs).div_spec(rhs.norm_spec()),
            }),
    {
        let a = self.real;
        let b = self.imaginary;
        let c = rhs.real;
        let d = rhs.imaginary;

        let re = ((a * c) + (b * d)) / ((c * c) + (d * d));
        let im = ((b * c) - (a * d)) / ((c * c) + (d * d));
        Complex::new(re, im)
    }
}

impl<T: Copy + Div<Output = T>> vstd::std_specs::ops::DivSpecImpl<T> for Complex<T> {
    open spec fn obeys_div_spec() -> bool {
        T::obeys_div_spec()
    }

    open spec fn div_req(self, rhs: T) -> bool {
        &&& self.real.div_req(rhs)
        &&& self.imaginary.div_req(rhs)
    }

    open spec fn div_spec(self, rhs: T) -> Complex<T> {
        Complex { real: self.real.div_spec(rhs), imaginary: self.imaginary.div_spec(rhs) }
    }
}

impl<T: Copy + Div<Output = T>> Div<T> for Complex<T> {
    type Output = Complex<T>;

    /// `(a + bi) / s = (a / s) + (b / s)i`: a uniform scaling, allowed where
    /// `self.div_req(rhs)`.
    fn div(self, rhs: T) -> (out: Complex<T>)
        ensures
            T::obeys_div_spec() ==> out == (Complex {
                real: self.real.div_spec(rhs),
                imaginary: self.imaginary.div_spec(rhs),
            }),
    {
        let a = self.real;
        let b = self.imaginary;
        let c = rhs;

        let re = a / c;
        let im = b / c;
        Complex::new(re, im)
    }
}

// ---------------------------------------------------------------------------
// Negation
// ---------------------------------------------------------------------------

impl<T: Copy + Neg<Output = T>> vstd::std_specs::ops::NegSpecImpl for Complex<T> {
    open spec fn obeys_neg_spec() -> bool {
        T::obeys_neg_spec()
    }

    open spec fn neg_req(self) -> bool {
        &&& self.real.neg_req()
        &&& self.imaginary.neg_req()
    }

    open spec fn neg_spec(self) -> Complex<T> {
        Complex { real: self.real.neg_spec(), imaginary: self.imaginary.neg_spec() }
    }
}

impl<T: Copy + Neg<Output = T>> Neg for Complex<T> {
    type Output = Complex<T>;

    /// `-(a + bi) = (-a) + (-b)i`, allowed where `self.neg_req()`.
    fn neg(self) -> (out: Complex<T>)
        ensures
            T::obeys_neg_spec() ==> out == (Complex {
                real: self.real.neg_spec(),
                imaginary: self.imaginary.neg_spec(),
            }),
    {
        Complex::new(self.real.neg(), self.imaginary.neg())
    }
}

} // verus!
