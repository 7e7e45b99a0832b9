//! Support selection of the sparsemax projection.
use vstd::prelude::*;

verus! {

/// Size of the sparsemax support: the largest `k` such that the `k`-th test
/// (`1 + k * z_k > z_1 + ... + z_k` on the logits sorted in decreasing
/// order) holds, or `0` if no test holds.
pub open spec fn support_size(holds: Seq<bool>) -> nat
    decreases holds.len(),
{
    if holds.len() == 0 {
        0
    } else if holds.last() {
        holds.len()
    } else {
        support_size(holds.drop_last())
    }
}

/// Picks the sparsemax support from the per-rank support tests.
///
/// `holds[i]` is the outcome of the test for rank `k = i + 1` on the logits
/// sorted in decreasing order. The result is the largest such `k` whose test
/// holds, and `0` when none does (then every weight is zero).
pub fn sparsemax_support(holds: &[bool]) -> (k: usize)
    ensures
        k == support_size(holds@),
        k <= holds@.len(),
        k > 0 ==> holds@[k - 1],
        forall|j: int| k <= j < holds@.len() ==> !#[trigger] holds@[j],
{
    let n = holds.len();
    let mut support: usize = 0;
    let mut i: usize = 0;
    while i < n
        invariant
            n == holds@.len(),
            i <= n,
            support as nat == support_size(holds@.take(i as int)),
        decreases n - i,
    {
        proof {
            assert(holds@.take(i + 1).drop_last() =~= holds@.take(i as int));
        }
        if holds[i] {
            support = i + 1;
        }
        i = i + 1;
    }
    proof {
        assert(holds@.take(n as int) =~= holds@);
        lemma_support_size_is_last_holding(holds@);
    }
    support
}

/// The support size names the last test that holds: that test holds, and
/// no later one does.
pub proof fn lemma_support_size_is_last_holding(holds: Seq<bool>)
    ensures
        support_size(holds) <= holds.len(),
        support_size(holds) > 0 ==> holds[support_size(holds) - 1],
        forall|j: int| support_size(holds) <= j < holds.len() ==> !#[trigger] holds[j],
    decreases holds.len(),
{
    if holds.len() > 0 && !holds.last() {
        let rest = holds.drop_last();
        lemma_support_size_is_last_holding(rest);
        assert forall|j: int| support_size(holds) <= j < holds.len() implies !#[trigger] holds[j] by {
            if j < rest.len() {
                assert(holds[j] == rest[j]);
            }
        }
    }
}

} // verus!
