use crate::complex::Complex;
use core::ops::{Add, AddAssign, Div, DivAssign, Mul, MulAssign, Sub, SubAssign};
use vstd::prelude::*;
use vstd::std_specs::ops::{AddSpec, DivSpec, MulSpec, SubSpec};

verus! {

// Each compound assignment leaves in the receiver what the binary operator of
// the same name would have returned, and asks of its operands what that
// operator asks. The scalar only needs the binary operator itself.

impl<T: Copy + Add<Output = T>> AddAssign<Complex<T>> for Complex<T> {
    /// `self = self + rhs`.
    fn add_assign(&mut self, rhs: Complex<T>)
        requires
            old(self).add_req(rhs),
        ensures
            T::obeys_add_spec() ==> *final(self) == old(self).add_spec(rhs),
    {
        self.real = self.real + rhs.real;
        self.imaginary = self.imaginary + rhs.imaginary;
    }
}

impl<T: Copy + Add<Output = T>> AddAssign<T> for Complex<T> {
    /// `self = self + rhs` for a scalar `rhs`.
    fn add_assign(&mut self, rhs: T)
        requires
            old(self).add_req(rhs),
        ensures
            T::obeys_add_spec() ==> *final(self) == old(self).add_spec(rhs),
            final(self).imaginary == old(self).imaginary,
    {
        self.real = self.real + rhs;
    }
}

impl<T: Copy + Sub<Output = T>> SubAssign<Complex<T>> for Complex<T> {
    /// `self = self - rhs`.
    fn sub_assign(&mut self, rhs: Complex<T>)
        requires
            old(self).sub_req(rhs),
        ensures
            T::obeys_sub_spec() ==> *final(self) == old(self).sub_spec(rhs),
    {
        self.real = self.real - rhs.real;
        self.imaginary = self.imaginary - rhs.imaginary;
    }
}

impl<T: Copy + Sub<Output = T>> SubAssign<T> for Complex<T> {
    /// `self = self - rhs` for a scalar `rhs`.
    fn sub_assign(&mut self, rhs: T)
        requires
            old(self).sub_req(rhs),
        ensures
            T::obeys_sub_spec() ==> *final(self) == old(self).sub_spec(rhs),
            final(self).imaginary == old(self).imaginary,
    {
        self.real = self.real - rhs;
    }
}

impl<T: Copy + Mul<Output = T> + Sub<Output = T> + Add<Output = T>> MulAssign<Complex<T>> for Complex<T> {
    /// `self = self * rhs`.
    fn mul_assign(&mut self, rhs: Complex<T>)
        requires
            old(self).mul_req(rhs),
        ensures
            T::obeys_sub_spec() && T::obeys_add_spec() ==> *final(self) == old(self).mul_spec(rhs),
    {
        let re: T = self.real * rhs.real - (self.imaginary * rhs.imaginary);
        let im: T = self.imaginary * rhs.real + (rhs.imaginary * self.real);
        self.real = re;
        self.imaginary = im;
    }
}

impl<T: Copy + Mul<Output = T>> MulAssign<T> for Complex<T> {
    /// `self = self * rhs` for a scalar `rhs`.
    fn mul_assign(&mut self, rhs: T)
        requires
            old(self).mul_req(rhs),
        ensures
            T::obeys_mul_spec() ==> *final(self) == old(self).mul_spec(rhs),
    {
        let re: T = self.real * rhs;
        let im: T = self.imaginary * rhs;
        self.real = re;
        self.imaginary = im;
    }
}

impl<T: Copy + Mul<Output = T> + Add<Output = T> + Div<Output = T> + Sub<Output = T>> DivAssign<Complex<T>> for Complex<T> {
    /// `self = self / rhs`.
    fn div_assign(&mut self, rhs: Complex<T>)
        requires
            old(self).div_req(rhs),
        ensures
            T::obeys_div_spec() ==> *final(self) == old(self).div_spec(rhs),
    {
        let a = self.real;
        let b = self.imaginary;
        let c = rhs.real;
        let d = rhs.imaginary;

        let re = ((a * c) + (b * d)) / ((c * c) + (d * d));
        let im = ((b * c) - (a * d)) / ((c * c) + (d * d));

        self.real = re;
        self.imaginary = im;
    }
}

impl<T: Copy + Div<Output = T>> DivAssign<T> for Complex<T> {
    /// `self = self / rhs` for a scalar `rhs`.
    fn div_assign(&mut self, rhs: T)
        requires
            old(self).div_req(rhs),
        ensures
            T::obeys_div_spec() ==> *final(self) == old(self).div_spec(rhs),
    {
        let a = self.real;
        let b = self.imaginary;
        let c = rhs;

        let re = a / c;
        let im = b / c;

        self.real = re;
        self.imaginary = im;
    }
}

} // verus!
