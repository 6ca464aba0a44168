//! Mean, median and mode of a list of integers.
use vstd::prelude::*;

verus! {

pub open spec fn sum_of(s: Seq<isize>) -> int
    decreases s.len(),
{
    if s.len() == 0 {
        0
    } else {
        sum_of(s.drop_last()) + s.last()
    }
}

/// Integer division that rounds toward zero, for a positive divisor.
pub open spec fn div_toward_zero(a: int, b: int) -> int {
    if a >= 0 {
        a / b
    } else {
        -((-a) / b)
    }
}

/// Every running total of `s`, from the left, fits in an `isize`.
pub open spec fn sums_fit(s: Seq<isize>) -> bool {
    forall|k: int| 0 <= k <= s.len() ==> isize::MIN <= #[trigger] sum_of(s.take(k)) <= isize::MAX
}

/// The sum of `numbers` divided by their count, rounded toward zero.
pub fn mean(numbers: &Vec<isize>) -> (r: isize)
    requires
        numbers@.len() > 0,
        sums_fit(numbers@),
    ensures
        r == div_toward_zero(sum_of(numbers@), numbers@.len() as int),
{
    let mut sum: isize = 0;
    let mut i: usize = 0;
    while i < numbers.len()
        invariant
            i <= numbers@.len(),
            sums_fit(numbers@),
            sum == sum_of(numbers@.take(i as int)),
        decreases numbers@.len() - i,
    {
        assert(numbers@.take(i + 1).drop_last() =~= numbers@.take(i as int));
        assert(isize::MIN <= sum_of(numbers@.take(i + 1)) <= isize::MAX);
        sum = sum + numbers[i];
        i = i + 1;
    }
    assert(numbers@.take(numbers@.len() as int) =~= numbers@);
    let n: u128 = numbers.len() as u128;
    if sum >= 0 {
        let q: u128 = (sum as u128) / n;
        assert(q <= sum) by (nonlinear_arith)
            requires
                q == (sum as u128) / n,
                n >= 1,
                sum >= 0,
        ;
        q as isize
    } else {
        let m: u128 = (0i128 - sum as i128) as u128;
        let q: u128 = m / n;
        assert(q <= m) by (nonlinear_arith)
            requires
                q == m / n,
                n >= 1,
        ;
        (0i128 - q as i128) as isize
    }
}

pub open spec fn is_ascending(s: Seq<isize>) -> bool {
    forall|i: int, j: int| 0 <= i <= j < s.len() ==> s[i] <= s[j]
}

/// Relies on `slice::sort_unstable`: the same values, in ascending order.
#[verifier::external_body]
fn sort_ascending(v: &mut Vec<isize>)
    ensures
        final(v)@.to_multiset() == old(v)@.to_multiset(),
        is_ascending(final(v)@),
{
    v.sort_unstable();
}

/// The value at the middle position (the upper one for an even count) once
/// `numbers` is sorted.
pub fn median(numbers: &Vec<isize>) -> (r: isize)
    requires
        numbers@.len() > 0,
    ensures
        exists|s: Seq<isize>|
            is_ascending(s) && s.to_multiset() == numbers@.to_multiset() && s.len()
                == numbers@.len() && r == #[trigger] s[(numbers@.len() / 2) as int],
{
    let mut sorted_numbers = numbers.clone();
    sort_ascending(&mut sorted_numbers);
    proof {
        vstd::seq_lib::to_multiset_len(numbers@);
        vstd::seq_lib::to_multiset_len(sorted_numbers@);
    }
    let mid_index: usize = sorted_numbers.len() / 2;
    sorted_numbers[mid_index]
}

/// How many times `x` occurs in `s`.
pub open spec fn count_of(s: Seq<isize>, x: isize) -> nat
    decreases s.len(),
{
    if s.len() == 0 {
        0
    } else {
        count_of(s.drop_last(), x) + if s.last() == x {
            1nat
        } else {
            0nat
        }
    }
}

fn count_in(numbers: &Vec<isize>, x: isize) -> (c: usize)
    ensures
        c == count_of(numbers@, x),
{
    let mut c: usize = 0;
    let mut i: usize = 0;
    while i < numbers.len()
        invariant
            i <= numbers@.len(),
            c <= i,
            c == count_of(numbers@.take(i as int), x),
        decreases numbers@.len() - i,
    {
        assert(numbers@.take(i + 1).drop_last() =~= numbers@.take(i as int));
        if numbers[i] == x {
            c = c + 1;
        }
        i = i + 1;
    }
    assert(numbers@.take(numbers@.len() as int) =~= numbers@);
    c
}

/// A value of `numbers` that occurs at least as often as any other.
pub fn mode(numbers: &Vec<isize>) -> (r: isize)
    requires
        numbers@.len() > 0,
    ensures
        numbers@.contains(r),
        forall|j: int|
            0 <= j < numbers@.len() ==> count_of(numbers@, #[trigger] numbers@[j]) <= count_of(
                numbers@,
                r,
            ),
{
    let mut best_key: isize = numbers[0];
    let mut best_count: usize = count_in(numbers, best_key);
    let mut i: usize = 1;
    while i < numbers.len()
        invariant
            1 <= i <= numbers@.len(),
            numbers@.contains(best_key),
            best_count == count_of(numbers@, best_key),
            forall|j: int|
                0 <= j < i ==> count_of(numbers@, #[trigger] numbers@[j]) <= best_count,
        decreases numbers@.len() - i,
    {
        let c = count_in(numbers, numbers[i]);
        if c > best_count {
            best_key = numbers[i];
            best_count = c;
        }
        i = i + 1;
    }
    best_key
}

} // verus!
