//! Laws of complex arithmetic.
//!
//! Each law is stated over the specification functions that the contracts
//! of the operations name. The first four hold of every scalar that keeps
//! the matching law of [`scalar`](crate::scalar), which the built-in integers
//! do; each says that the operation on one side may be applied wherever the
//! one on the other side may, and that both give the same number. The last
//! speaks of division, which no two scalars do alike, and is stated of `i64`.

use crate::complex::Complex;
use crate::scalar::add_commutes;
use crate::scalar::is_zero;
use crate::scalar::mul_commutes;
use crate::scalar::neg_undoes_neg;
use core::ops::Add;
use core::ops::Mul;
use core::ops::Neg;
use core::ops::Sub;
use vstd::prelude::*;

verus! {

/// Additive identity: `zero + zero i` may be added to every `a`, and the
/// sum is `a`.
pub proof fn lemma_add_zero<T: Add<Output = T>>(a: Complex<T>, zero: T)
    requires
        is_zero(zero),
    ensures
        a.can_add(Complex { real: zero, imag: zero }),
        a.plus(Complex { real: zero, imag: zero }) == a,
{
}

/// Addition commutes: `b + a` may be computed where `a + b` may, and both
/// are the same number.
pub proof fn lemma_add_commutes<T: Add<Output = T>>(a: Complex<T>, b: Complex<T>)
    requires
        add_commutes::<T>(),
    ensures
        a.can_add(b) == b.can_add(a),
        a.plus(b) == b.plus(a),
{
}

/// Multiplication commutes: `b * a` may be computed where `a * b` may, and
/// both are the same number.
pub proof fn lemma_mul_commutes<T: Mul<Output = T> + Sub<Output = T> + Add<Output = T>>(
    a: Complex<T>,
    b: Complex<T>,
)
    requires
        add_commutes::<T>(),
        mul_commutes::<T>(),
    ensures
        a.can_mul(b) == b.can_mul(a),
        a.times(b) == b.times(a),
{
}

/// Conjugate involution: where `a` has a conjugate, so has that conjugate,
/// and it is `a`.
pub proof fn lemma_conj_undoes_conj<T: Neg<Output = T>>(a: Complex<T>)
    requires
        neg_undoes_neg::<T>(),
        a.can_conj(),
    ensures
        a.conjugate().can_conj(),
        a.conjugate().conjugate() == a,
{
}

/// Division undoes multiplication, over `i64`: where the product `q * b`
/// may be computed and then divided by `b`, the quotient is `q` exactly, so
/// that multiplying it by `b` once more gives the product back.
///
/// Division of integers truncates, so nothing of the kind holds of a
/// dividend that is no multiple of the divisor.
pub proof fn lemma_div_undoes_mul(q: Complex<i64>, b: Complex<i64>)
    requires
        q.can_mul(b),
        q.times(b).can_div(b),
    ensures
        q.times(b).over(b) == q,
        q.times(b).over(b).times(b) == q.times(b),
{
    let x = q.real as int;
    let y = q.imag as int;
    let c = b.real as int;
    let d = b.imag as int;
    let modulus = c * c + d * d;
    assert(b.squared_modulus() == modulus);
    assert(modulus > 0) by (nonlinear_arith)
        requires
            modulus == c * c + d * d,
            modulus != 0,
    ;
    assert((x * c - y * d) * c + (x * d + y * c) * d == modulus * x) by (nonlinear_arith)
        requires
            modulus == c * c + d * d,
    ;
    assert((x * d + y * c) * c - (x * c - y * d) * d == modulus * y) by (nonlinear_arith)
        requires
            modulus == c * c + d * d,
    ;
    lemma_truncated_quotient_of_multiple(x, modulus);
    lemma_truncated_quotient_of_multiple(y, modulus);
}

/// Dividing `divisor * k` by a positive `divisor` gives `k`, whether the
/// quotient is taken of the product or, negated, of the negated product, as
/// a truncating division does for a negative dividend.
proof fn lemma_truncated_quotient_of_multiple(k: int, divisor: int)
    requires
        divisor > 0,
    ensures
        (divisor * k) / divisor == k,
        -((-(divisor * k)) / divisor) == k,
{
    vstd::arithmetic::div_mod::lemma_div_multiples_vanish(k, divisor);
    vstd::arithmetic::div_mod::lemma_div_multiples_vanish(-k, divisor);
    assert(-(divisor * k) == divisor * (-k)) by (nonlinear_arith);
}

} // verus!
