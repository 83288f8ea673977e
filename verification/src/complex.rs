use vstd::prelude::*;

verus! {

/// The value `real + imaginary * i` over a scalar type `T`.
///
/// Every pair of scalars is a valid value; equality is exact and
/// component-wise.
#[derive(Copy, PartialEq, Eq, Structural)]
pub struct Complex<T: Copy> {
    pub real: T,
    pub imaginary: T,
}

impl<T: Copy> Clone for Complex<T> {
    /// A copy: an independent value equal to `self`.
    fn clone(&self) -> (out: Self)
        ensures
            out == *self,
    {
        *self
    }
}

impl<T: Copy> Complex<T> {
    /// The value with real part `r` and imaginary part `i`; the same as
    /// [`Complex::new`].
    pub fn new_const(r: T, i: T) -> (out: Self)
        ensures
            out == (Complex { real: r, imaginary: i }),
    {
        Self { real: r, imaginary: i }
    }

    /// The value with real part `r` and imaginary part `i`. Any two scalars
    /// are accepted.
    pub fn new(r: T, i: T) -> (out: Self)
        ensures
            out == (Complex { real: r, imaginary: i }),
    {
        Self { real: r, imaginary: i }
    }

    /// The real component.
    pub fn real_part(&self) -> (out: T)
        ensures
            out == self.real,
    {
        self.real
    }

    /// The coefficient of `i`.
    pub fn imaginary(&self) -> (out: T)
        ensures
            out == self.imaginary,
    {
        self.imaginary
    }

    /// Replaces the real component and leaves the imaginary one as it was.
    pub fn set_real(&mut self, value: T)
        ensures
            *final(self) == (Complex { real: value, imaginary: old(self).imaginary }),
    {
        self.real = value
    }

    /// Replaces the imaginary component and leaves the real one as it was.
    pub fn set_imaginary(&mut self, value: T)
        ensures
            *final(self) == (Complex { real: old(self).real, imaginary: value }),
    {
        self.imaginary = value
    }
}

} // verus!
