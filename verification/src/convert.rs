use crate::complex::Complex;
use vstd::prelude::*;

verus! {

impl<T: Copy> vstd::std_specs::convert::FromSpecImpl<(T, T)> for Complex<T> {
    open spec fn obeys_from_spec() -> bool {
        true
    }

    open spec fn from_spec(v: (T, T)) -> Self {
        Complex { real: v.0, imaginary: v.1 }
    }
}

impl<T: Copy> From<(T, T)> for Complex<T> {
    /// The pair `(real, imaginary)` as a complex value.
    fn from(v: (T, T)) -> (out: Self)
        ensures
            out == (Complex { real: v.0, imaginary: v.1 }),
    {
        Complex::new(v.0, v.1)
    }
}

/// Whether `d` is a value that `T::default()` may return.
pub open spec fn is_default_of<T: Default>(d: T) -> bool {
    call_ensures(T::default, (), d)
}

impl<T: Copy + Default> vstd::std_specs::convert::FromSpecImpl<T> for Complex<T> {
    /// The conversion is a function of its argument where the scalar's
    /// default is a single value.
    open spec fn obeys_from_spec() -> bool {
        forall|d1: T, d2: T| is_default_of(d1) && is_default_of(d2) ==> d1 == d2
    }

    open spec fn from_spec(v: T) -> Self {
        Complex { real: v, imaginary: choose|d: T| is_default_of(d) }
    }
}

impl<T: Copy + Default> From<T> for Complex<T> {
    /// The scalar `r` as a purely real value: its imaginary part is the
    /// scalar type's default.
    fn from(r: T) -> (out: Self)
        ensures
            out.real == r,
            is_default_of(out.imaginary),
    {
        let d = T::default();
        proof {
            assert(is_default_of(d));
        }
        Complex::new(r, d)
    }
}

} // verus!
