//! What the laws of complex arithmetic ask of the scalar.
//!
//! A law of [`Complex<T>`](crate::complex::Complex) holds where the matching
//! law holds of `T`. Each is a predicate here, over the specification that
//! `T` gives for its operators, followed by the proof that the built-in
//! integer types satisfy it.

use core::ops::Add;
use core::ops::Mul;
use core::ops::Neg;
use vstd::prelude::*;
use vstd::std_specs::ops::AddSpec;
use vstd::std_specs::ops::MulSpec;
use vstd::std_specs::ops::NegSpec;

verus! {

/// `zero` may be added to every scalar, and leaves it as it is.
pub open spec fn is_zero<T: Add<Output = T>>(zero: T) -> bool {
    forall|x: T|
        #![trigger x.add_req(zero)]
        #![trigger x.add_spec(zero)]
        x.add_req(zero) && x.add_spec(zero) == x
}

/// Addition of scalars does not depend on the order of its operands.
pub open spec fn add_commutes<T: Add<Output = T>>() -> bool {
    forall|x: T, y: T|
        #![trigger x.add_req(y)]
        #![trigger x.add_spec(y)]
        x.add_req(y) == y.add_req(x) && x.add_spec(y) == y.add_spec(x)
}

/// Multiplication of scalars does not depend on the order of its operands.
pub open spec fn mul_commutes<T: Mul<Output = T>>() -> bool {
    forall|x: T, y: T|
        #![trigger x.mul_req(y)]
        #![trigger x.mul_spec(y)]
        x.mul_req(y) == y.mul_req(x) && x.mul_spec(y) == y.mul_spec(x)
}

/// A scalar that may be negated may be negated twice, which gives it back.
pub open spec fn neg_undoes_neg<T: Neg<Output = T>>() -> bool {
    forall|x: T|
        x.neg_req() ==> x.neg_spec().neg_req() && #[trigger] x.neg_spec().neg_spec() == x
}

/// Every built-in integer type has `0` as its zero.
pub proof fn lemma_integers_have_zero()
    ensures
        is_zero::<u8>(0),
        is_zero::<u16>(0),
        is_zero::<u32>(0),
        is_zero::<u64>(0),
        is_zero::<u128>(0),
        is_zero::<usize>(0),
        is_zero::<i8>(0),
        is_zero::<i16>(0),
        is_zero::<i32>(0),
        is_zero::<i64>(0),
        is_zero::<i128>(0),
        is_zero::<isize>(0),
{
}

/// Addition commutes on every built-in integer type.
pub proof fn lemma_integers_add_commutes()
    ensures
        add_commutes::<u8>(),
        add_commutes::<u16>(),
        add_commutes::<u32>(),
        add_commutes::<u64>(),
        add_commutes::<u128>(),
        add_commutes::<usize>(),
        add_commutes::<i8>(),
        add_commutes::<i16>(),
        add_commutes::<i32>(),
        add_commutes::<i64>(),
        add_commutes::<i128>(),
        add_commutes::<isize>(),
{
}

/// Multiplication commutes on every built-in integer type.
pub proof fn lemma_integers_mul_commutes()
    ensures
        mul_commutes::<u8>(),
        mul_commutes::<u16>(),
        mul_commutes::<u32>(),
        mul_commutes::<u64>(),
        mul_commutes::<u128>(),
        mul_commutes::<usize>(),
        mul_commutes::<i8>(),
        mul_commutes::<i16>(),
        mul_commutes::<i32>(),
        mul_commutes::<i64>(),
        mul_commutes::<i128>(),
        mul_commutes::<isize>(),
{
}

/// Negation undoes itself on every built-in signed integer type: the one
/// value that may not be negated is the least of the type.
pub proof fn lemma_integers_neg_undoes_neg()
    ensures
        neg_undoes_neg::<i8>(),
        neg_undoes_neg::<i16>(),
        neg_undoes_neg::<i32>(),
        neg_undoes_neg::<i64>(),
        neg_undoes_neg::<i128>(),
        neg_undoes_neg::<isize>(),
{
}

} // verus!
