//! Spike/bulk partition of a sorted spectrum, once the detector has named
//! the positions of the spikes.
use vstd::prelude::*;

verus! {

/// The entries of `s` at the positions in `positions` (in increasing
/// position order), among the first `m` positions.
pub open spec fn spec_picked<T>(s: Seq<T>, positions: Set<int>, m: nat) -> Seq<T>
    decreases m,
{
    if m == 0 {
        Seq::empty()
    } else {
        let prev = spec_picked(s, positions, (m - 1) as nat);
        if positions.contains(m - 1) {
            prev.push(s[m - 1])
        } else {
            prev
        }
    }
}

/// The entries of `s` at the positions not in `positions`, in order, among
/// the first `m` positions.
pub open spec fn spec_rest<T>(s: Seq<T>, positions: Set<int>, m: nat) -> Seq<T>
    decreases m,
{
    if m == 0 {
        Seq::empty()
    } else {
        let prev = spec_rest(s, positions, (m - 1) as nat);
        if positions.contains(m - 1) {
            prev
        } else {
            prev.push(s[m - 1])
        }
    }
}

/// The positions named by an index list, as a set.
pub open spec fn spec_position_set(indices: Seq<usize>) -> Set<int> {
    Set::new(|i: int| exists|q: int| 0 <= q < indices.len() && indices[q] as int == i)
}

/// Split a sorted spectrum at the detected spike positions (strictly
/// increasing indices into `sorted`): the spike samples, in order, and the
/// bulk, i.e. every other entry, in order.
pub fn split_by_indices<T: Copy>(sorted: &Vec<T>, spike_indices: &Vec<usize>) -> (r: (
    Vec<T>,
    Vec<T>,
))
    requires
        forall|a: int, b: int|
            0 <= a < b < spike_indices@.len() ==> spike_indices@[a] < spike_indices@[b],
        forall|a: int| 0 <= a < spike_indices@.len() ==> spike_indices@[a] < sorted@.len(),
    ensures
        r.0@ == spec_picked(sorted@, spec_position_set(spike_indices@), sorted@.len()),
        r.1@ == spec_rest(sorted@, spec_position_set(spike_indices@), sorted@.len()),
        r.0@.len() == spike_indices@.len(),
        r.1@.len() == sorted@.len() - spike_indices@.len(),
{
    let ghost positions = spec_position_set(spike_indices@);
    let mut picked: Vec<T> = Vec::new();
    let mut rest: Vec<T> = Vec::new();
    let mut next: usize = 0;
    let mut i: usize = 0;
    while i < sorted.len()
        invariant
            forall|a: int, b: int|
                0 <= a < b < spike_indices@.len() ==> spike_indices@[a] < spike_indices@[b],
            forall|a: int| 0 <= a < spike_indices@.len() ==> spike_indices@[a] < sorted@.len(),
            positions == spec_position_set(spike_indices@),
            i <= sorted@.len(),
            next <= spike_indices@.len(),
            forall|a: int| 0 <= a < next ==> spike_indices@[a] < i,
            forall|a: int| next <= a < spike_indices@.len() ==> spike_indices@[a] >= i,
            picked@ == spec_picked(sorted@, positions, i as nat),
            rest@ == spec_rest(sorted@, positions, i as nat),
            picked@.len() == next,
            picked@.len() + rest@.len() == i,
        decreases sorted@.len() - i,
    {
        let hit = next < spike_indices.len() && spike_indices[next] == i;
        proof {
            if positions.contains(i as int) {
                let q = choose|q: int|
                    0 <= q < spike_indices@.len() && spike_indices@[q] as int == i as int;
                if q > next {
                    assert(spike_indices@[next as int] < spike_indices@[q]);
                }
                assert(q == next);
            }
            if hit {
                assert(positions.contains(i as int));
            }
        }
        if hit {
            picked.push(sorted[i]);
            next = next + 1;
        } else {
            rest.push(sorted[i]);
        }
        i = i + 1;
    }
    if next < spike_indices.len() {
        assert(spike_indices@[next as int] < sorted@.len());
    }
    (picked, rest)
}

/// Splitting keeps every entry exactly once: the spike samples and the bulk
/// together are as many as the entries of the spectrum.
pub proof fn lemma_split_keeps_count<T>(s: Seq<T>, positions: Set<int>, m: nat)
    ensures
        spec_picked(s, positions, m).len() + spec_rest(s, positions, m).len() == m,
    decreases m,
{
    if m > 0 {
        lemma_split_keeps_count(s, positions, (m - 1) as nat);
    }
}

} // verus!
