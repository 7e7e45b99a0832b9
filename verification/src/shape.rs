//! Shape rule of the weighted average of stored memories.
use vstd::prelude::*;

verus! {

/// Every stored memory has the dimension of the first one.
pub open spec fn uniform_dims(memory_dims: Seq<usize>) -> bool {
    forall|i: int| 0 <= i < memory_dims.len() ==> #[trigger] memory_dims[i] == memory_dims[0]
}

/// Dimension of the weighted average of a memory bank, or `None` where the
/// average is not defined: an empty bank, a weight count that differs from
/// the number of memories, or memories of different dimensions.
pub open spec fn weighted_memory_dim_spec(memory_dims: Seq<usize>, weight_count: nat) -> Option<
    usize,
> {
    if memory_dims.len() == 0 || weight_count != memory_dims.len() || !uniform_dims(memory_dims) {
        None
    } else {
        Some(memory_dims[0])
    }
}

/// Decides whether `weighted_memory` produces a vector, and of which length.
///
/// `memory_dims[i]` is the length of the `i`-th stored memory, and
/// `weight_count` the number of weights given. The result is the length of
/// the first memory when the bank is non-empty, there is one weight per
/// memory and all memories share that length; otherwise `None`, for which
/// the weighted average is the empty vector.
pub fn weighted_memory_dim(memory_dims: &[usize], weight_count: usize) -> (dim: Option<usize>)
    ensures
        dim == weighted_memory_dim_spec(memory_dims@, weight_count as nat),
        dim is Some <==> (memory_dims@.len() > 0 && weight_count == memory_dims@.len() && forall|
            i: int,
            j: int,
        | 0 <= i < memory_dims@.len() && 0 <= j < memory_dims@.len() ==> #[trigger] memory_dims@[i]
            == #[trigger] memory_dims@[j]),
        forall|i: int| 0 <= i < memory_dims@.len() && dim is Some ==> dim == Some(#[trigger] memory_dims@[i]),
{
    proof {
        lemma_shape_rule_is_complete(memory_dims@, weight_count as nat);
        if weighted_memory_dim_spec(memory_dims@, weight_count as nat) is Some {
            assert forall|i: int, j: int|
                0 <= i < memory_dims@.len() && 0 <= j < memory_dims@.len() implies #[trigger] memory_dims@[i]
                == #[trigger] memory_dims@[j] by {
                assert(memory_dims@[i] == memory_dims@[0]);
                assert(memory_dims@[j] == memory_dims@[0]);
            }
        }
    }
    if memory_dims.len() == 0 {
        return None;
    }
    if weight_count != memory_dims.len() {
        return None;
    }
    let first = memory_dims[0];
    let n = memory_dims.len();
    let mut i: usize = 1;
    while i < n
        invariant
            n == memory_dims@.len(),
            1 <= i <= n,
            first == memory_dims@[0],
            forall|j: int| 0 <= j < i ==> #[trigger] memory_dims@[j] == first,
        decreases n - i,
    {
        if memory_dims[i] != first {
            return None;
        }
        i = i + 1;
    }
    Some(first)
}

/// Where the weighted average is defined, it has the dimension of every
/// stored memory, and there is exactly one weight per memory.
pub proof fn lemma_defined_average_matches_every_memory(
    memory_dims: Seq<usize>,
    weight_count: nat,
    i: int,
)
    requires
        weighted_memory_dim_spec(memory_dims, weight_count) is Some,
        0 <= i < memory_dims.len(),
    ensures
        weighted_memory_dim_spec(memory_dims, weight_count) == Some(memory_dims[i]),
        weight_count == memory_dims.len(),
{
}

/// Completeness of the shape rule: every non-empty bank whose memories all
/// have the same dimension `d`, given one weight per memory, has a weighted
/// average of dimension `d`, whatever the number of memories. Conversely a
/// bank without an average is empty, has the wrong number of weights, or
/// holds two memories of different dimensions.
pub proof fn lemma_shape_rule_is_complete(memory_dims: Seq<usize>, weight_count: nat)
    ensures
        forall|d: usize|
            memory_dims.len() > 0 && weight_count == memory_dims.len() && (forall|i: int|
                0 <= i < memory_dims.len() ==> #[trigger] memory_dims[i] == d)
                ==> weighted_memory_dim_spec(memory_dims, weight_count) == Some(d),
        weighted_memory_dim_spec(memory_dims, weight_count) is None ==> memory_dims.len() == 0
            || weight_count != memory_dims.len() || exists|i: int, j: int|
            0 <= i < memory_dims.len() && 0 <= j < memory_dims.len() && #[trigger] memory_dims[i]
                != #[trigger] memory_dims[j],
{
    if weighted_memory_dim_spec(memory_dims, weight_count) is None && memory_dims.len() > 0
        && weight_count == memory_dims.len() {
        let i = choose|i: int| 0 <= i < memory_dims.len() && #[trigger] memory_dims[i] != memory_dims[0];
        assert(memory_dims[i] != memory_dims[0]);
    }
}

} // verus!
