//! Adding up the sizes that the provider reports.
//!
//! Reported sizes are signed and not trusted. A page's sizes are summed as
//! signed numbers, the sum is converted to an unsigned one, and that is added
//! to the bucket's running total. Each of the three steps fails rather than
//! wraps.
use crate::common::error::Error;
use vstd::prelude::*;

verus! {

/// The sum of `amounts`.
pub open spec fn total(amounts: Seq<int>) -> int
    decreases amounts.len(),
{
    if amounts.len() == 0 {
        0
    } else {
        total(amounts.drop_last()) + amounts.last()
    }
}

/// What a reported size adds to a sum: itself, or nothing where none was given.
pub open spec fn reported(size: Option<i64>) -> int {
    match size {
        Some(bytes) => bytes as int,
        None => 0,
    }
}

/// What each of `sizes` adds to a sum.
pub open spec fn reported_sizes(sizes: Seq<Option<i64>>) -> Seq<int> {
    sizes.map_values(|size: Option<i64>| reported(size))
}

/// The size that a signed sum stands for: the sum itself where it is not
/// negative and a signed 64-bit number holds it.
pub open spec fn settled(sum: int) -> Result<u64, Error> {
    if sum < i64::MIN || sum > i64::MAX {
        Err(Error::SizeOverflow)
    } else if sum < 0 {
        Err(Error::NegativeSize)
    } else {
        Ok(sum as u64)
    }
}

/// A running total after `more` bytes were added to it.
pub open spec fn grown(size: u64, more: u64) -> Result<u64, Error> {
    if size + more > u64::MAX {
        Err(Error::SizeOverflow)
    } else {
        Ok((size + more) as u64)
    }
}

/// The running total after each of `amounts` was added to `size` in turn.
pub open spec fn grown_by_all(size: u64, amounts: Seq<u64>) -> Result<u64, Error> {
    let sum = size + total(amounts.map_values(|amount: u64| amount as int));
    if sum > u64::MAX {
        Err(Error::SizeOverflow)
    } else {
        Ok(sum as u64)
    }
}

/// Adding one more amount adds it to the sum.
pub proof fn lemma_total_push(amounts: Seq<int>, next: int)
    ensures
        total(amounts.push(next)) == total(amounts) + next,
{
    assert(amounts.push(next).drop_last() =~= amounts);
}

/// The sum of two runs of amounts, one after the other, is the sum of their sums.
pub proof fn lemma_total_concat(first: Seq<int>, second: Seq<int>)
    ensures
        total(first + second) == total(first) + total(second),
    decreases second.len(),
{
    if second.len() == 0 {
        assert(first + second =~= first);
    } else {
        lemma_total_concat(first, second.drop_last());
        assert((first + second).drop_last() =~= first + second.drop_last());
    }
}

/// A sum of amounts that are not negative is not negative, and no smaller than
/// the sum of any of its beginnings.
pub proof fn lemma_total_grows(amounts: Seq<int>, upto: int)
    requires
        forall|i: int| 0 <= i < amounts.len() ==> amounts[i] >= 0,
        0 <= upto <= amounts.len(),
    ensures
        0 <= total(amounts.take(upto)) <= total(amounts),
    decreases amounts.len(),
{
    if upto == amounts.len() {
        assert(amounts.take(upto) =~= amounts);
        if amounts.len() > 0 {
            lemma_total_grows(amounts.drop_last(), upto - 1);
        }
    } else {
        lemma_total_grows(amounts.drop_last(), upto);
        assert(amounts.drop_last().take(upto) =~= amounts.take(upto));
    }
}

/// Converts a signed sum to a size.
pub fn settle(sum: i128) -> (size: Result<u64, Error>)
    ensures
        size == settled(sum as int),
{
    if sum < -0x8000_0000_0000_0000i128 || sum > 0x7fff_ffff_ffff_ffffi128 {
        Err(Error::SizeOverflow)
    } else if sum < 0 {
        Err(Error::NegativeSize)
    } else {
        Ok(sum as u64)
    }
}

/// Adds `more` bytes to a running total.
pub fn grow(size: u64, more: u64) -> (sum: Result<u64, Error>)
    ensures
        sum == grown(size, more),
{
    match size.checked_add(more) {
        Some(sum) => Ok(sum),
        None => Err(Error::SizeOverflow),
    }
}

/// The size that the reported `sizes` of one page add up to.
pub fn sum_reported(sizes: &Vec<Option<i64>>) -> (size: Result<u64, Error>)
    ensures
        size == settled(total(reported_sizes(sizes@))),
{
    let ghost amounts = reported_sizes(sizes@);
    let mut sum: i128 = 0;
    let mut at: usize = 0;
    while at < sizes.len()
        invariant
            at <= sizes.len(),
            amounts == reported_sizes(sizes@),
            sum == total(amounts.take(at as int)),
            -0x8000_0000_0000_0000 * at <= sum <= 0x7fff_ffff_ffff_ffff * at,
        decreases sizes.len() - at,
    {
        let bytes: i64 = match sizes[at] {
            Some(bytes) => bytes,
            None => 0,
        };
        proof {
            lemma_total_push(amounts.take(at as int), amounts[at as int]);
            assert(amounts.take(at + 1) =~= amounts.take(at as int).push(amounts[at as int]));
        }
        sum = sum + bytes as i128;
        at = at + 1;
    }
    proof {
        assert(amounts.take(at as int) =~= amounts);
    }
    settle(sum)
}

/// The total of the sizes of several buckets, or of several passes over one.
pub fn sum_sizes(sizes: &Vec<u64>) -> (sum: Result<u64, Error>)
    ensures
        sum == grown_by_all(0, sizes@),
{
    let ghost amounts = sizes@.map_values(|amount: u64| amount as int);
    let mut sum: u64 = 0;
    let mut at: usize = 0;
    while at < sizes.len()
        invariant
            at <= sizes.len(),
            amounts == sizes@.map_values(|amount: u64| amount as int),
            sum == total(amounts.take(at as int)),
        decreases sizes.len() - at,
    {
        proof {
            lemma_total_push(amounts.take(at as int), amounts[at as int]);
            assert(amounts.take(at + 1) =~= amounts.take(at as int).push(amounts[at as int]));
            lemma_total_grows(amounts, at + 1);
        }
        match sum.checked_add(sizes[at]) {
            Some(more) => {
                sum = more;
            },
            None => {
                return Err(Error::SizeOverflow);
            },
        }
        at = at + 1;
    }
    proof {
        assert(amounts.take(at as int) =~= amounts);
    }
    Ok(sum)
}

} // verus!
