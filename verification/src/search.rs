//! A search that may find nothing.

use vstd::prelude::*;

verus! {

/// Whether `numbers[index]` is even and every number before it is odd.
pub open spec fn is_first_even_at(numbers: Seq<i32>, index: int) -> bool {
    &&& 0 <= index < numbers.len()
    &&& numbers[index] % 2 == 0
    &&& forall|j: int| 0 <= j < index ==> numbers[j] % 2 != 0
}

/// The first even number of a slice, if it holds one.
pub fn find_first_even(numbers: &[i32]) -> (found: Option<i32>)
    ensures
        match found {
            Some(number) => exists|index: int|
                is_first_even_at(numbers@, index) && numbers[index] == number,
            None => forall|j: int| 0 <= j < numbers.len() ==> numbers[j] % 2 != 0,
        },
{
    let mut i: usize = 0;
    while i < numbers.len()
        invariant
            i <= numbers.len(),
            forall|j: int| 0 <= j < i ==> numbers[j] % 2 != 0,
        decreases numbers.len() - i,
    {
        let number = numbers[i];
        if number % 2 == 0 {
            return Some(number);
        }
        i += 1;
    }
    None
}

} // verus!
