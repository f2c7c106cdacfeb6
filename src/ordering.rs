use vstd::prelude::*;
use vstd::std_specs::cmp::PartialOrdSpec;

verus! {

/// The position of `n` relative to `m` on the number line.
pub fn compare(n: i32, m: i32) -> (r: std::cmp::Ordering)
    ensures
        r == (if n < m {
            std::cmp::Ordering::Less
        } else if n > m {
            std::cmp::Ordering::Greater
        } else {
            std::cmp::Ordering::Equal
        }),
{
    if n < m {
        std::cmp::Ordering::Less
    } else if n > m {
        std::cmp::Ordering::Greater
    } else {
        std::cmp::Ordering::Equal
    }
}

/// The smaller of two values, `value1` when they compare equal.
pub fn min<T: Ord>(value1: T, value2: T) -> (r: T)
    ensures
        r == value1 || r == value2,
        T::obeys_partial_cmp_spec() ==> r == (if value1.partial_cmp_spec(&value2) matches Some(
            std::cmp::Ordering::Less | std::cmp::Ordering::Equal,
        ) {
            value1
        } else {
            value2
        }),
{
    if value1 <= value2 {
        value1
    } else {
        value2
    }
}

/// References to the greatest and the least element of a slice.
pub struct Extrema<'elt> {
    pub greatest: &'elt i32,
    pub least: &'elt i32,
}

/// The greatest and the least element of a non-empty slice, each the first
/// of its value.
pub fn find_extrema<'s>(slice: &'s [i32]) -> (r: Extrema<'s>)
    requires
        slice@.len() > 0,
    ensures
        slice@.contains(*r.greatest),
        slice@.contains(*r.least),
        forall|i: int| 0 <= i < slice@.len() ==> *r.least <= #[trigger] slice@[i] && slice@[i] <= *r.greatest,
{
    let mut greatest = &slice[0];
    let mut least = &slice[0];
    let mut i: usize = 1;
    while i < slice.len()
        invariant
            1 <= i <= slice@.len(),
            slice@.contains(*greatest),
            slice@.contains(*least),
            forall|j: int| 0 <= j < i ==> *least <= #[trigger] slice@[j] && slice@[j] <= *greatest,
        decreases slice@.len() - i,
    {
        if slice[i] < *least {
            least = &slice[i];
        }
        if slice[i] > *greatest {
            greatest = &slice[i];
        }
        i = i + 1;
    }
    Extrema { greatest, least }
}

} // verus!
