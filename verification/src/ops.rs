//! The four arithmetic operators on [`Complex`].
//!
//! What an operator computes is a specification function of the number
//! (`plus`, `minus`, `times`, `over`), stated over the specification that the
//! scalar gives for its own operators. When it may be applied is another
//! (`can_add`, `can_sub`, `can_mul`, `can_div`): that is its precondition,
//! which leaves out the operands on which an operator of the scalar would
//! overflow or divide by zero. A result is bound to its specification where
//! the scalar's results are bound to theirs.

use crate::complex::Complex;
use core::ops::Add;
use core::ops::Div;
use core::ops::Mul;
use core::ops::Sub;
use vstd::prelude::*;
use vstd::std_specs::ops::AddSpec;
use vstd::std_specs::ops::DivSpec;
use vstd::std_specs::ops::MulSpec;
use vstd::std_specs::ops::SubSpec;

verus! {

impl<T> Complex<T> {
    /// The componentwise sum.
    pub open spec fn plus(self, rhs: Complex<T>) -> Complex<T> where T: Add<Output = T> {
        Complex { real: self.real.add_spec(rhs.real), imag: self.imag.add_spec(rhs.imag) }
    }

    /// Both componentwise sums may be computed.
    pub open spec fn can_add(self, rhs: Complex<T>) -> bool where T: Add<Output = T> {
        &&& self.real.add_req(rhs.real)
        &&& self.imag.add_req(rhs.imag)
    }

    /// The componentwise difference.
    pub open spec fn minus(self, rhs: Complex<T>) -> Complex<T> where T: Sub<Output = T> {
        Complex { real: self.real.sub_spec(rhs.real), imag: self.imag.sub_spec(rhs.imag) }
    }

    /// Both componentwise differences may be computed.
    pub open spec fn can_sub(self, rhs: Complex<T>) -> bool where T: Sub<Output = T> {
        &&& self.real.sub_req(rhs.real)
        &&& self.imag.sub_req(rhs.imag)
    }

    /// The product `(a + bi)(c + di) = (ac - bd) + (ad + bc)i`.
    pub open spec fn times(self, rhs: Complex<T>) -> Complex<T> where
        T: Mul<Output = T> + Sub<Output = T> + Add<Output = T>,
     {
        Complex {
            real: self.real.mul_spec(rhs.real).sub_spec(self.imag.mul_spec(rhs.imag)),
            imag: self.real.mul_spec(rhs.imag).add_spec(self.imag.mul_spec(rhs.real)),
        }
    }

    /// The four products may be computed, and so may the difference of the
    /// first two and the sum of the last two.
    ///
    /// As in [`can_abs`](Complex::can_abs), products of `T` have to be bound
    /// to `mul_spec`.
    pub open spec fn can_mul(self, rhs: Complex<T>) -> bool where
        T: Mul<Output = T> + Sub<Output = T> + Add<Output = T>,
     {
        &&& T::obeys_mul_spec()
        &&& self.real.mul_req(rhs.real)
        &&& self.imag.mul_req(rhs.imag)
        &&& self.real.mul_spec(rhs.real).sub_req(self.imag.mul_spec(rhs.imag))
        &&& self.real.mul_req(rhs.imag)
        &&& self.imag.mul_req(rhs.real)
        &&& self.real.mul_spec(rhs.imag).add_req(self.imag.mul_spec(rhs.real))
    }

    /// The numerator of the real part of `self / rhs`: `ac + bd`.
    pub open spec fn real_numerator(self, rhs: Complex<T>) -> T where
        T: Mul<Output = T> + Add<Output = T>,
     {
        self.real.mul_spec(rhs.real).add_spec(self.imag.mul_spec(rhs.imag))
    }

    /// The numerator of the imaginary part of `self / rhs`: `bc - ad`.
    pub open spec fn imag_numerator(self, rhs: Complex<T>) -> T where
        T: Mul<Output = T> + Sub<Output = T>,
     {
        self.imag.mul_spec(rhs.real).sub_spec(self.real.mul_spec(rhs.imag))
    }

    /// The quotient `(a + bi) / (c + di) = ((ac + bd) + (bc - ad)i) / (cc + dd)`:
    /// each numerator divided, as `T` divides, by the squared modulus of `rhs`.
    pub open spec fn over(self, rhs: Complex<T>) -> Complex<T> where
        T: Mul<Output = T> + Sub<Output = T> + Add<Output = T> + Div<Output = T>,
     {
        Complex {
            real: self.real_numerator(rhs).div_spec(rhs.squared_modulus()),
            imag: self.imag_numerator(rhs).div_spec(rhs.squared_modulus()),
        }
    }

    /// The squared modulus of `rhs` and both numerators may be computed, and
    /// each numerator may be divided by that squared modulus. Where `T` does
    /// not divide by zero, this leaves out every `rhs` whose squared modulus
    /// is zero; nothing else is asked of `rhs`.
    ///
    /// The quotients are those of the sums and differences as `add_spec` and
    /// `sub_spec` give them, so these have to bind `T` as `mul_spec` does.
    pub open spec fn can_div(self, rhs: Complex<T>) -> bool where
        T: Mul<Output = T> + Sub<Output = T> + Add<Output = T> + Div<Output = T>,
     {
        &&& T::obeys_add_spec()
        &&& T::obeys_sub_spec()
        &&& rhs.can_abs()
        &&& self.real.mul_req(rhs.real)
        &&& self.imag.mul_req(rhs.imag)
        &&& self.real.mul_spec(rhs.real).add_req(self.imag.mul_spec(rhs.imag))
        &&& self.imag.mul_req(rhs.real)
        &&& self.real.mul_req(rhs.imag)
        &&& self.imag.mul_spec(rhs.real).sub_req(self.real.mul_spec(rhs.imag))
        &&& self.real_numerator(rhs).div_req(rhs.squared_modulus())
        &&& self.imag_numerator(rhs).div_req(rhs.squared_modulus())
    }
}

/// What `+` means on numbers: it asks `can_add` and gives `plus`.
impl<T: Add<Output = T>> vstd::std_specs::ops::AddSpecImpl for Complex<T> {
    open spec fn obeys_add_spec() -> bool {
        T::obeys_add_spec()
    }

    open spec fn add_req(self, rhs: Complex<T>) -> bool {
        self.can_add(rhs)
    }

    open spec fn add_spec(self, rhs: Complex<T>) -> Complex<T> {
        self.plus(rhs)
    }
}

impl<T: Add<Output = T>> Add for Complex<T> {
    type Output = Complex<T>;

    /// `self + other`. Its precondition is `self.add_req(other)`, that is
    /// `self.can_add(other)`.
    fn add(self, other: Complex<T>) -> (sum: Complex<T>)
        ensures
            T::obeys_add_spec() ==> sum == self.plus(other),
    {
        Complex { real: self.real + other.real, imag: self.imag + other.imag }
    }
}

/// What `-` means on numbers: it asks `can_sub` and gives `minus`.
impl<T: Sub<Output = T>> vstd::std_specs::ops::SubSpecImpl for Complex<T> {
    open spec fn obeys_sub_spec() -> bool {
        T::obeys_sub_spec()
    }

    open spec fn sub_req(self, rhs: Complex<T>) -> bool {
        self.can_sub(rhs)
    }

    open spec fn sub_spec(self, rhs: Complex<T>) -> Complex<T> {
        self.minus(rhs)
    }
}

impl<T: Sub<Output = T>> Sub for Complex<T> {
    type Output = Complex<T>;

    /// `self - other`. Its precondition is `self.sub_req(other)`, that is
    /// `self.can_sub(other)`.
    fn sub(self, other: Complex<T>) -> (difference: Complex<T>)
        ensures
            T::obeys_sub_spec() ==> difference == self.minus(other),
    {
        Complex { real: self.real - other.real, imag: self.imag - other.imag }
    }
}

/// What `*` means on numbers: it asks `can_mul` and gives `times`.
impl<T: Mul<Output = T> + Sub<Output = T> + Add<Output = T> + Copy> vstd::std_specs::ops::MulSpecImpl for Complex<T> {
    open spec fn obeys_mul_spec() -> bool {
        T::obeys_mul_spec() && T::obeys_sub_spec() && T::obeys_add_spec()
    }

    open spec fn mul_req(self, rhs: Complex<T>) -> bool {
        self.can_mul(rhs)
    }

    open spec fn mul_spec(self, rhs: Complex<T>) -> Complex<T> {
        self.times(rhs)
    }
}

impl<T: Mul<Output = T> + Sub<Output = T> + Add<Output = T> + Copy> Mul for Complex<T> {
    type Output = Complex<T>;

    /// `self * other`. Its precondition is `self.mul_req(other)`, that is
    /// `self.can_mul(other)`.
    fn mul(self, other: Complex<T>) -> (product: Complex<T>)
        ensures
            T::obeys_sub_spec() && T::obeys_add_spec() ==> product == self.times(other),
    {
        Complex {
            real: self.real * other.real - self.imag * other.imag,
            imag: self.real * other.imag + self.imag * other.real,
        }
    }
}

/// What `/` means on numbers: it asks `can_div` and gives `over`.
impl<T: Mul<Output = T> + Sub<Output = T> + Add<Output = T> + Div<Output = T> + Copy> vstd::std_specs::ops::DivSpecImpl for Complex<T> {
    open spec fn obeys_div_spec() -> bool {
        T::obeys_mul_spec() && T::obeys_sub_spec() && T::obeys_add_spec() && T::obeys_div_spec()
    }

    open spec fn div_req(self, rhs: Complex<T>) -> bool {
        self.can_div(rhs)
    }

    open spec fn div_spec(self, rhs: Complex<T>) -> Complex<T> {
        self.over(rhs)
    }
}

impl<T: Mul<Output = T> + Sub<Output = T> + Add<Output = T> + Div<Output = T> + Copy> Div for Complex<T> {
    type Output = Complex<T>;

    /// `self / other`. Its precondition is `self.div_req(other)`, that is
    /// `self.can_div(other)`.
    fn div(self, other: Complex<T>) -> (quotient: Complex<T>)
        ensures
            T::obeys_div_spec() ==> quotient == self.over(other),
    {
        let denom = other.real * other.real + other.imag * other.imag;
        Complex {
            real: (self.real * other.real + self.imag * other.imag) / denom,
            imag: (self.imag * other.real - self.real * other.imag) / denom,
        }
    }
}

} // verus!
