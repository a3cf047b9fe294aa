//! Random orders. The random source only rearranges; what an order is, and
//! what it does to a list, is stated and proved here.

use rand::rngs::StdRng;
use rand::rngs::SysRng;
use rand::seq::SliceRandom;
use rand::SeedableRng;
use vstd::prelude::*;

verus! {

/// Whether `order` lists each of the numbers below its length exactly once.
pub open spec fn is_order(order: Seq<usize>) -> bool {
    &&& forall|i: int| 0 <= i < order.len() ==> #[trigger] order[i] < order.len()
    &&& order.no_duplicates()
}

/// The numbers below `n` in rising order.
pub open spec fn rising(n: nat) -> Seq<usize> {
    Seq::new(n, |i: int| i as usize)
}

/// `SliceRandom::shuffle` of `rand`, with a generator of its own:
/// `StdRng::try_from_rng` seeds one from `SysRng`, the source of the
/// operating system, and fails where that source gives no seed. The shuffle
/// rearranges the items by swapping pairs of them, so the same items are
/// there afterwards, each as often as before. Which order comes out is not
/// said. Where no generator can be seeded the items stay as they are.
#[verifier::external_body]
fn shuffle(order: &mut Vec<usize>)
    ensures
        final(order)@.to_multiset() == old(order)@.to_multiset(),
{
    if let Ok(mut generator) = StdRng::try_from_rng(&mut SysRng) {
        order.shuffle(&mut generator);
    }
}

/// A rearrangement of the numbers below `n` lists each of them exactly once.
proof fn lemma_rearranged_rising_is_order(order: Seq<usize>, n: nat)
    requires
        n <= usize::MAX,
        order.to_multiset() == rising(n).to_multiset(),
    ensures
        order.len() == n,
        is_order(order),
{
    let sorted = rising(n);
    order.to_multiset_ensures();
    sorted.to_multiset_ensures();
    sorted.lemma_multiset_has_no_duplicates();
    order.lemma_multiset_has_no_duplicates_conv();
    assert forall|i: int| 0 <= i < order.len() implies #[trigger] order[i] < order.len() by {
        assert(sorted.to_multiset().count(order[i]) > 0);
    }
}

/// The numbers below `n`, each exactly once, in an order picked at random.
/// Where the operating system gives no randomness it is the rising order.
pub fn random_order(n: usize) -> (order: Vec<usize>)
    ensures
        order@.len() == n,
        is_order(order@),
{
    let mut order: Vec<usize> = Vec::new();
    let mut i: usize = 0;
    while i < n
        invariant
            i <= n,
            order@ == rising(i as nat),
        decreases n - i,
    {
        order.push(i);
        i += 1;
    }
    shuffle(&mut order);
    proof {
        lemma_rearranged_rising_is_order(order@, n as nat);
    }
    order
}

} // verus!
