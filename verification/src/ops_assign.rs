//! The in-place forms of the four arithmetic operators on [`Complex`].
//!
//! Each leaves in `self` what the operator itself returns on the same
//! operands: its contract names the same two specification functions.
//! They read `self` twice, so they ask that `T` be `Copy`.

use crate::complex::Complex;
use core::ops::Add;
use core::ops::AddAssign;
use core::ops::Div;
use core::ops::DivAssign;
use core::ops::Mul;
use core::ops::MulAssign;
use core::ops::Sub;
use core::ops::SubAssign;
use vstd::prelude::*;
use vstd::std_specs::ops::AddSpec;
use vstd::std_specs::ops::DivSpec;
use vstd::std_specs::ops::MulSpec;
use vstd::std_specs::ops::SubSpec;

verus! {

impl<T: Add<Output = T> + Copy> AddAssign for Complex<T> {
    /// `self += other`: `self` becomes `self + other`.
    fn add_assign(&mut self, other: Complex<T>)
        requires
            old(self).can_add(other),
        ensures
            T::obeys_add_spec() ==> *final(self) == old(self).plus(other),
    {
        self.real = self.real + other.real;
        self.imag = self.imag + other.imag;
    }
}

impl<T: Sub<Output = T> + Copy> SubAssign for Complex<T> {
    /// `self -= other`: `self` becomes `self - other`.
    fn sub_assign(&mut self, other: Complex<T>)
        requires
            old(self).can_sub(other),
        ensures
            T::obeys_sub_spec() ==> *final(self) == old(self).minus(other),
    {
        self.real = self.real - other.real;
        self.imag = self.imag - other.imag;
    }
}

impl<T: Mul<Output = T> + Sub<Output = T> + Add<Output = T> + Copy> MulAssign for Complex<T> {
    /// `self *= other`: `self` becomes `self * other`. Both parts are computed
    /// from `self` as it was, before either is stored.
    fn mul_assign(&mut self, other: Complex<T>)
        requires
            old(self).can_mul(other),
        ensures
            T::obeys_sub_spec() && T::obeys_add_spec() ==> *final(self) == old(self).times(other),
    {
        let new_real = self.real * other.real - self.imag * other.imag;
        let new_imag = self.real * other.imag + self.imag * other.real;
        self.real = new_real;
        self.imag = new_imag;
    }
}

impl<T: Mul<Output = T> + Sub<Output = T> + Add<Output = T> + Div<Output = T> + Copy> DivAssign for Complex<T> {
    /// `self /= other`: `self` becomes `self / other`. Both parts are computed
    /// from `self` as it was, before either is stored.
    fn div_assign(&mut self, other: Complex<T>)
        requires
            old(self).can_div(other),
        ensures
            T::obeys_div_spec() ==> *final(self) == old(self).over(other),
    {
        let denom = other.real * other.real + other.imag * other.imag;
        let new_real = (self.real * other.real + self.imag * other.imag) / denom;
        let new_imag = (self.imag * other.real - self.real * other.imag) / denom;
        self.real = new_real;
        self.imag = new_imag;
    }
}

} // verus!
