//! Allocation of buffers for structures that end in a flexible array member.
//!
//! A structure of this kind is a fixed header followed directly by an array whose
//! length the type does not record. Allocating `size_of` the header would leave no
//! room for the array, so the buffer is built as a vector of header-typed elements:
//! that gives it the header's alignment, and only its first element is ever used as
//! a header. The remaining elements are storage for the trailing array.
use vstd::prelude::*;
use vstd::layout::size_of;

verus! {

/// The number of `unit`-byte elements needed to hold `size_in_bytes` bytes:
/// `size_in_bytes / unit`, rounded up.
pub open spec fn units_for_bytes(size_in_bytes: nat, unit: nat) -> nat
    recommends
        unit > 0,
{
    ((size_in_bytes + unit - 1) / (unit as int)) as nat
}

/// The bytes taken by a header of `header` bytes followed by `count` elements of
/// `element` bytes each.
pub open spec fn array_field_bytes(header: nat, element: nat, count: nat) -> nat {
    header + count * element
}

/// Rounding up to whole units covers the requested bytes and wastes less than one unit.
pub proof fn lemma_units_cover(size_in_bytes: nat, unit: nat)
    requires
        unit > 0,
    ensures
        units_for_bytes(size_in_bytes, unit) * unit >= size_in_bytes,
        units_for_bytes(size_in_bytes, unit) * unit < size_in_bytes + unit,
{
    let n = (size_in_bytes + unit - 1) as int;
    let d = unit as int;
    assert(n == d * (n / d) + n % d && 0 <= n % d < d) by {
        vstd::arithmetic::div_mod::lemma_fundamental_div_mod(n, d);
        vstd::arithmetic::div_mod::lemma_mod_bound(n, d);
    }
    assert(0 <= n / d) by {
        vstd::arithmetic::div_mod::lemma_div_pos_is_pos(n, d);
    }
    assert((n / d) * d == d * (n / d)) by (nonlinear_arith);
}

/// Returns a vector of default values of `T` that spans at least `size_in_bytes` bytes.
///
/// The length is `size_in_bytes` divided by the size of `T`, rounded up, so the
/// vector never falls short of the request and never exceeds it by a whole element.
///
/// Three kinds of request have no answer and are excluded: a zero-sized `T`; a
/// request so large that adding the size of `T` to it overflows `usize`; and one
/// whose vector would span more than `isize::MAX` bytes, the most that a vector can.
pub fn vec_with_size_in_bytes<T: Default>(size_in_bytes: usize) -> (v: Vec<T>)
    requires
        size_of::<T>() > 0,
        size_in_bytes + size_of::<T>() <= usize::MAX,
        units_for_bytes(size_in_bytes as nat, size_of::<T>()) * size_of::<T>() <= isize::MAX,
    ensures
        v@.len() == units_for_bytes(size_in_bytes as nat, size_of::<T>()),
        v@.len() * size_of::<T>() >= size_in_bytes,
        v@.len() * size_of::<T>() < size_in_bytes + size_of::<T>(),
        forall|i: int| 0 <= i < v@.len() ==> call_ensures(T::default, (), #[trigger] v@[i]),
{
    let unit: usize = core::mem::size_of::<T>();
    let rounded_size: usize = (size_in_bytes + unit - 1) / unit;
    proof {
        lemma_units_cover(size_in_bytes as nat, size_of::<T>());
    }
    let mut v: Vec<T> = Vec::with_capacity(rounded_size);
    let mut filled: usize = 0;
    while filled < rounded_size
        invariant
            filled <= rounded_size,
            v@.len() == filled,
            forall|i: int| 0 <= i < v@.len() ==> call_ensures(T::default, (), #[trigger] v@[i]),
        decreases rounded_size - filled,
    {
        v.push(T::default());
        filled = filled + 1;
    }
    v
}

/// Returns a vector of default values of the header type `T` with room for one
/// header followed by `count` elements of type `F`.
///
/// Only the first element is meant to be used as a header; the others are the
/// storage that the trailing array of `F` is laid over. The vector spans at least
/// `size_of::<T>() + count * size_of::<F>()` bytes.
///
/// Excluded are a zero-sized header, a `count` for which that sum and one more
/// header overflow `usize`, and a `count` whose vector would span more than
/// `isize::MAX` bytes, the most that a vector can.
pub fn vec_with_array_field<T: Default, F>(count: usize) -> (v: Vec<T>)
    requires
        size_of::<T>() > 0,
        array_field_bytes(size_of::<T>(), size_of::<F>(), count as nat) + size_of::<T>()
            <= usize::MAX,
        units_for_bytes(
            array_field_bytes(size_of::<T>(), size_of::<F>(), count as nat),
            size_of::<T>(),
        ) * size_of::<T>() <= isize::MAX,
    ensures
        v@.len() == units_for_bytes(
            array_field_bytes(size_of::<T>(), size_of::<F>(), count as nat),
            size_of::<T>(),
        ),
        v@.len() * size_of::<T>() >= size_of::<T>() + count * size_of::<F>(),
        v@.len() * size_of::<T>() < size_of::<T>() + count * size_of::<F>() + size_of::<T>(),
        v@.len() >= 1,
        forall|i: int| 0 <= i < v@.len() ==> call_ensures(T::default, (), #[trigger] v@[i]),
{
    let element: usize = core::mem::size_of::<F>();
    let header: usize = core::mem::size_of::<T>();
    assert(count * element >= 0) by (nonlinear_arith)
        requires
            count >= 0,
            element >= 0,
    ;
    let element_space: usize = count * element;
    let vec_size_bytes: usize = header + element_space;
    let v = vec_with_size_in_bytes::<T>(vec_size_bytes);
    assert(v@.len() >= 1) by (nonlinear_arith)
        requires
            v@.len() * header >= vec_size_bytes,
            vec_size_bytes >= header,
            header > 0,
    ;
    v
}

} // verus!
