use vstd::prelude::*;

verus! {

/// The voting powers of a validator set, added up.
pub open spec fn total_power(powers: Seq<u64>) -> int
    decreases powers.len(),
{
    if powers.len() == 0 {
        0
    } else {
        total_power(powers.drop_last()) + powers.last()
    }
}

/// The first powers of a set add up to no more than all of them.
proof fn lemma_total_of_prefix(powers: Seq<u64>, count: int)
    requires
        0 <= count <= powers.len(),
    ensures
        0 <= total_power(powers.take(count)) <= total_power(powers),
    decreases powers.len(),
{
    if count == powers.len() {
        assert(powers.take(count) == powers);
        if powers.len() > 0 {
            lemma_total_of_prefix(powers.drop_last(), count - 1);
            assert(powers.drop_last().take(count - 1) == powers.drop_last());
        }
    } else {
        lemma_total_of_prefix(powers.drop_last(), count);
        assert(powers.drop_last().take(count) == powers.take(count));
    }
}

/// Whether voting powers add up to a number that a `u64` holds, so that any
/// of them can be added up without overflow.
pub fn sum_fits(powers: &Vec<u64>) -> (r: bool)
    ensures
        r == (total_power(powers@) <= u64::MAX),
{
    let mut sum: u64 = 0;
    let mut i: usize = 0;
    while i < powers.len()
        invariant
            0 <= i <= powers.len(),
            sum == total_power(powers@.take(i as int)),
        decreases powers.len() - i,
    {
        proof {
            assert(powers@.take(i + 1).drop_last() == powers@.take(i as int));
            lemma_total_of_prefix(powers@, i + 1);
        }
        if powers[i] > u64::MAX - sum {
            return false;
        }
        sum = sum + powers[i];
        i += 1;
    }
    proof {
        assert(powers@.take(powers@.len() as int) == powers@);
    }
    true
}

} // verus!
