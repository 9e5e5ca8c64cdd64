use vstd::prelude::*;

verus! {

/// The arithmetic sum of a sequence of 32-bit integers, as a mathematical integer.
pub open spec fn sum_of(xs: Seq<i32>) -> int
    decreases xs.len(),
{
    if xs.len() == 0 {
        0
    } else {
        sum_of(xs.drop_last()) + xs.last() as int
    }
}

/// The sum of a concatenation is the sum of its parts.
pub proof fn lemma_sum_concat(xs: Seq<i32>, ys: Seq<i32>)
    ensures
        sum_of(xs + ys) == sum_of(xs) + sum_of(ys),
    decreases ys.len(),
{
    if ys.len() == 0 {
        assert(xs + ys =~= xs);
    } else {
        lemma_sum_concat(xs, ys.drop_last());
        assert((xs + ys).drop_last() =~= xs + ys.drop_last());
    }
}

/// Summation does not depend on the order of the elements: a sequence and
/// its reverse have the same sum, and the empty sequence sums to zero.
pub proof fn lemma_sum_reverse(xs: Seq<i32>)
    ensures
        sum_of(xs) == sum_of(xs.reverse()),
        sum_of(Seq::<i32>::empty()) == 0,
    decreases xs.len(),
{
    if xs.len() > 0 {
        let init = xs.drop_last();
        lemma_sum_reverse(init);
        assert(xs.reverse() =~= seq![xs.last()] + init.reverse());
        lemma_sum_concat(seq![xs.last()], init.reverse());
        assert(seq![xs.last()].drop_last() =~= Seq::<i32>::empty());
    }
}

/// Sums `numbers`. The result is a 32-bit integer, so the total must fit in
/// `i32`; partial sums are carried in a wider accumulator and never overflow.
pub fn calculate_sum(numbers: &[i32]) -> (r: i32)
    requires
        i32::MIN <= sum_of(numbers@) <= i32::MAX,
    ensures
        r as int == sum_of(numbers@),
{
    let mut acc: i128 = 0;
    let mut i: usize = 0;
    while i < numbers.len()
        invariant
            i <= numbers.len(),
            acc as int == sum_of(numbers@.subrange(0, i as int)),
            -(i as int) * 0x8000_0000 <= acc <= (i as int) * 0x8000_0000,
        decreases numbers.len() - i,
    {
        assert(numbers@.subrange(0, i + 1).drop_last() =~= numbers@.subrange(0, i as int));
        acc = acc + numbers[i] as i128;
        i = i + 1;
    }
    assert(numbers@.subrange(0, i as int) =~= numbers@);
    acc as i32
}

} // verus!
