//! Small arithmetic and sequence operations: an arithmetic updater, a
//! rectangle with a computed area, an integer classifier, an in-place
//! sequence doubler, and a labeled generic pair.

use vstd::prelude::*;

verus! {

/// A labeled rectangle with non-negative integer sides, fixed at
/// construction.
pub struct Rectangle {
    pub width: u32,
    pub height: u32,
}

impl Rectangle {
    /// The area of the rectangle. The result type is wide enough that the
    /// product of two `u32` sides can never overflow.
    pub fn area(&self) -> (r: u64)
        ensures
            r == self.width * self.height,
    {
        proof {
            assert(self.width * self.height <= u32::MAX * u32::MAX) by (nonlinear_arith)
                requires
                    self.width <= u32::MAX,
                    self.height <= u32::MAX,
            ;
        }
        (self.width as u64) * (self.height as u64)
    }
}

/// A labeled pair of two independently typed fields.
pub struct Point<T, U> {
    pub x: T,
    pub y: U,
}

/// Returns the sum of a current value and an increment.
pub fn calculate_new_value(val: i32, add: i32) -> (r: i32)
    requires
        i32::MIN <= val + add <= i32::MAX,
    ensures
        r == val + add,
{
    val + add
}

/// The text `classify` returns for each integer, branch by branch in
/// priority order: exact zero first, then the inclusive range 1 to 10,
/// then even values greater than ten, and everything else otherwise.
pub open spec fn classification(v: int) -> Seq<char> {
    if v == 0 {
        "zero"@
    } else if 1 <= v && v <= 10 {
        "between 1 and 10"@
    } else if v > 10 && v % 2 == 0 {
        "even greater than 10"@
    } else {
        "odd greater than 10"@
    }
}

/// Classifies an integer by the first matching branch: zero, the inclusive
/// range 1 to 10, even and greater than ten, or otherwise.
pub fn classify(v: i32) -> (r: &'static str)
    ensures
        r@ == classification(v as int),
{
    if v == 0 {
        "zero"
    } else if 1 <= v && v <= 10 {
        "between 1 and 10"
    } else if v > 10 && v % 2 == 0 {
        "even greater than 10"
    } else {
        "odd greater than 10"
    }
}

/// Doubles every element of the sequence in place, preserving order and
/// length. The empty sequence is left unchanged.
pub fn process_numbers(nums: &mut Vec<i32>)
    requires
        forall|i: int|
            0 <= i < old(nums)@.len() ==> i32::MIN <= 2 * #[trigger] old(nums)@[i] <= i32::MAX,
    ensures
        final(nums)@.len() == old(nums)@.len(),
        forall|i: int| 0 <= i < old(nums)@.len() ==> final(nums)@[i] == 2 * old(nums)@[i],
{
    let ghost orig = nums@;
    let n = nums.len();
    let mut i: usize = 0;
    while i < n
        invariant
            n == orig.len(),
            nums@.len() == orig.len(),
            i <= n,
            forall|j: int| 0 <= j < i ==> nums@[j] == 2 * orig[j],
            forall|j: int| i <= j < orig.len() ==> nums@[j] == orig[j],
            forall|j: int| 0 <= j < orig.len() ==> i32::MIN <= 2 * #[trigger] orig[j] <= i32::MAX,
        decreases n - i,
    {
        proof {
            assert(i32::MIN <= 2 * orig[i as int] <= i32::MAX);
        }
        let doubled = nums[i] * 2;
        nums.set(i, doubled);
        i = i + 1;
    }
}

/// Returns the given integer plus one.
pub fn increment(num: i32) -> (r: i32)
    requires
        num < i32::MAX,
    ensures
        r == num + 1,
{
    num + 1
}

} // verus!
