//! The number type, its accessors, conjugate, squared modulus and polar form.

use core::ops::Add;
use core::ops::Div;
use core::ops::Mul;
use core::ops::Neg;
use vstd::prelude::*;
use vstd::std_specs::cmp::PartialEqSpec;
use vstd::std_specs::ops::AddSpec;
use vstd::std_specs::ops::DivSpec;
use vstd::std_specs::ops::MulSpec;
use vstd::std_specs::ops::NegSpec;

verus! {

/// The complex number `real + imag * i` over the scalar `T`.
///
/// Any two scalars make a number: the type has no invariant, and a number is
/// nothing but its two parts.
#[derive(Debug, Copy)]
pub struct Complex<T> {
    pub real: T,
    pub imag: T,
}

impl<T: Clone> Clone for Complex<T> {
    /// Clones both parts, each as `T` clones.
    fn clone(&self) -> (copy: Complex<T>)
        ensures
            cloned(self.real, copy.real),
            cloned(self.imag, copy.imag),
    {
        Complex { real: self.real.clone(), imag: self.imag.clone() }
    }
}

impl<T: PartialEq> PartialEq for Complex<T> {
    /// `self == other`: both parts are equal, each as `T` compares.
    fn eq(&self, other: &Complex<T>) -> (equal: bool) {
        self.real == other.real && self.imag == other.imag
    }
}

/// What `==` means on numbers.
impl<T: PartialEq> vstd::std_specs::cmp::PartialEqSpecImpl for Complex<T> {
    open spec fn obeys_eq_spec() -> bool {
        T::obeys_eq_spec()
    }

    open spec fn eq_spec(&self, other: &Complex<T>) -> bool {
        self.real.eq_spec(&other.real) && self.imag.eq_spec(&other.imag)
    }
}

impl<T> Complex<T> {
    /// The squared modulus `real * real + imag * imag`.
    pub open spec fn squared_modulus(self) -> T where T: Mul<Output = T> + Add<Output = T> {
        self.real.mul_spec(self.real).add_spec(self.imag.mul_spec(self.imag))
    }

    /// Both squares may be computed, and so may their sum.
    ///
    /// The sum is that of the squares as `mul_spec` gives them, so products of
    /// `T` have to be bound to `mul_spec`: of any other product nothing is
    /// known, not even whether it may be added to.
    pub open spec fn can_abs(self) -> bool where T: Mul<Output = T> + Add<Output = T> {
        &&& T::obeys_mul_spec()
        &&& self.real.mul_req(self.real)
        &&& self.imag.mul_req(self.imag)
        &&& self.real.mul_spec(self.real).add_req(self.imag.mul_spec(self.imag))
    }

    /// The conjugate `real - imag * i`.
    pub open spec fn conjugate(self) -> Complex<T> where T: Neg<Output = T> {
        Complex { real: self.real, imag: self.imag.neg_spec() }
    }

    /// The imaginary part may be negated.
    pub open spec fn can_conj(self) -> bool where T: Neg<Output = T> {
        self.imag.neg_req()
    }

    /// The angle `degrees * pi / half_turn`.
    pub open spec fn scaled_degrees(degrees: T, pi: T, half_turn: T) -> T where
        T: Mul<Output = T> + Div<Output = T>,
     {
        degrees.mul_spec(pi).div_spec(half_turn)
    }

    /// `degrees * pi` may be computed, and may be divided by `half_turn`.
    ///
    /// As in [`can_abs`](Complex::can_abs), products of `T` have to be bound
    /// to `mul_spec`.
    pub open spec fn can_scale_degrees(degrees: T, pi: T, half_turn: T) -> bool where
        T: Mul<Output = T> + Div<Output = T>,
     {
        &&& T::obeys_mul_spec()
        &&& degrees.mul_req(pi)
        &&& degrees.mul_spec(pi).div_req(half_turn)
    }

    /// The number `magnitude * cos_phase + magnitude * sin_phase * i`.
    pub open spec fn from_polar(magnitude: T, cos_phase: T, sin_phase: T) -> Complex<T> where
        T: Mul<Output = T>,
     {
        Complex { real: magnitude.mul_spec(cos_phase), imag: magnitude.mul_spec(sin_phase) }
    }

    /// Returns `real * real + imag * imag`.
    ///
    /// This is the square of the modulus, not the modulus: no square root is
    /// taken, so the number `3 + 4i` gives 25.
    pub fn abs(&self) -> (norm: T) where T: Mul<Output = T> + Add<Output = T> + Copy
        requires
            self.can_abs(),
        ensures
            T::obeys_add_spec() ==> norm == self.squared_modulus(),
    {
        self.real * self.real + self.imag * self.imag
    }

    /// Returns the real part.
    pub fn real_part(&self) -> (part: T) where T: Copy
        ensures
            part == self.real,
    {
        self.real
    }

    /// Returns the imaginary part.
    pub fn imag(&self) -> (part: T) where T: Copy
        ensures
            part == self.imag,
    {
        self.imag
    }

    /// Returns the conjugate: the real part as it is, the imaginary part
    /// negated.
    pub fn conj(&self) -> (mirrored: Complex<T>) where T: Neg<Output = T> + Copy
        requires
            self.can_conj(),
        ensures
            mirrored.real == self.real,
            T::obeys_neg_spec() ==> mirrored == self.conjugate(),
    {
        Complex { real: self.real, imag: self.imag.neg() }
    }

    /// Converts an angle in degrees to radians, as `degrees * pi / half_turn`:
    /// the product first, then the quotient.
    ///
    /// `pi` and `half_turn` are the scalar's own values of π and of 180. How a
    /// scalar type comes by them is the caller's matter.
    pub fn degrees_to_radians(degrees: T, pi: T, half_turn: T) -> (radians: T) where
        T: Mul<Output = T> + Div<Output = T>,

        requires
            Self::can_scale_degrees(degrees, pi, half_turn),
        ensures
            T::obeys_div_spec() ==> radians == Self::scaled_degrees(degrees, pi, half_turn),
    {
        degrees * pi / half_turn
    }

    /// Builds the number of the given magnitude whose phase angle has the
    /// cosine `cos_phase` and the sine `sin_phase`.
    ///
    /// The two are taken as they are given: that their squares add up to one
    /// is not asked.
    pub fn polar(magnitude: T, cos_phase: T, sin_phase: T) -> (z: Complex<T>) where
        T: Mul<Output = T> + Copy,

        requires
            magnitude.mul_req(cos_phase),
            magnitude.mul_req(sin_phase),
        ensures
            T::obeys_mul_spec() ==> z == Self::from_polar(magnitude, cos_phase, sin_phase),
    {
        Complex { real: magnitude * cos_phase, imag: magnitude * sin_phase }
    }
}

} // verus!
