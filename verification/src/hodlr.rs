//! The deterministic sampler of the hierarchical low-rank (HODLR) solver.
//!
//! The randomized compression mode probes each off-diagonal block on a
//! stratified sample of its rows and columns. The sample is drawn from a tiny
//! xorshift-style generator seeded from the block's index range, so that
//! sequential and parallel traversals draw identical samples.
use vstd::prelude::*;
use vstd::set_lib::lemma_len_subset;
use vstd::seq_lib::seq_to_set_is_finite;

verus! {

/// Off-diagonal block compression strategy.
#[derive(Debug, Clone, Copy, PartialEq, Eq, Structural)]
pub enum HodlrMode {
    /// Deterministic adaptive cross approximation: alternating skeleton
    /// rows/columns pivoted at the largest residual entry. The default.
    Aca,
    /// Randomized sketching on a stratified sample of kernel columns,
    /// validated on boundary strips, doubling the sample until the estimated
    /// residual meets the tolerance.
    Random,
}

/// Seed warm-up (SplitMix-style), so that nearby seeds decorrelate.
pub open spec fn spec_seed_state(seed: u64) -> u64 {
    let z0 = seed.wrapping_add(0x9E37_79B9_7F4A_7C15u64);
    let z1 = (z0 ^ (z0 >> 30u64)).wrapping_mul(0xBF58_476D_1CE4_E5B9u64);
    let z2 = (z1 ^ (z1 >> 27u64)).wrapping_mul(0x94D0_49BB_1331_11EBu64);
    z2 ^ (z2 >> 31u64)
}

/// The state transition of the generator (a 64-bit linear congruence).
pub open spec fn spec_step(x: u64) -> u64 {
    x.wrapping_mul(6364136223846793005u64).wrapping_add(1442695040888963407u64)
}

/// The output drawn from state `x`.
pub open spec fn spec_output(x: u64) -> u64 {
    let z = (x ^ (x >> 30u64)).wrapping_mul(0xBF58_476D_1CE4_E5B9u64);
    (z ^ (z >> 27u64)).wrapping_mul(0x94D0_49BB_1331_11EBu64)
}

/// The index in `0..max(n, 1)` drawn from state `x`.
pub open spec fn spec_below(x: u64, n: usize) -> usize {
    let bound: usize = if n == 0 { 1 } else { n };
    ((spec_output(x) >> 11u64) as usize) % bound
}

/// The state after `t` steps from state `x`.
pub open spec fn spec_advance(x: u64, t: nat) -> u64
    decreases t,
{
    if t == 0 {
        x
    } else {
        spec_step(spec_advance(x, (t - 1) as nat))
    }
}

/// Tiny deterministic pseudo-random generator; its view is its state.
pub struct Rng(u64);

impl View for Rng {
    type V = u64;

    closed spec fn view(&self) -> u64 {
        self.0
    }
}

impl Rng {
    /// Generator whose state is the warmed-up `seed`.
    pub fn new(seed: u64) -> (r: Self)
        ensures
            r@ == spec_seed_state(seed),
    {
        let mut z = seed.wrapping_add(0x9E37_79B9_7F4A_7C15);
        z = (z ^ (z >> 30)).wrapping_mul(0xBF58_476D_1CE4_E5B9);
        z = (z ^ (z >> 27)).wrapping_mul(0x94D0_49BB_1331_11EB);
        Rng(z ^ (z >> 31))
    }

    /// Next 64-bit output: drawn from the current state, which then steps.
    pub fn next_u64(&mut self) -> (r: u64)
        ensures
            r == spec_output(old(self)@),
            final(self)@ == spec_step(old(self)@),
    {
        let x = self.0;
        self.0 = self.0.wrapping_mul(6364136223846793005).wrapping_add(1442695040888963407);
        let z = (x ^ (x >> 30)).wrapping_mul(0xBF58_476D_1CE4_E5B9);
        (z ^ (z >> 27)).wrapping_mul(0x94D0_49BB_1331_11EB)
    }

    /// An index in `0..n` (`0` when `n == 0`): the output's top 53 bits
    /// reduced modulo `n`.
    pub fn below(&mut self, n: usize) -> (r: usize)
        ensures
            r == spec_below(old(self)@, n),
            final(self)@ == spec_step(old(self)@),
            n > 0 ==> r < n,
            n == 0 ==> r == 0,
    {
        let bound: usize = if n == 0 {
            1
        } else {
            n
        };
        let x = self.next_u64();
        ((x >> 11) as usize) % bound
    }
}

/// `0, 1, …, n-1`.
pub open spec fn spec_identity(n: usize) -> Seq<usize> {
    Seq::new(n as nat, |i: int| i as usize)
}

/// The index array after the first `t` swaps of a partial Fisher–Yates
/// shuffle of `0..n` driven by a generator that started in state `x`: swap
/// `a` exchanges positions `a` and `a + below(n - a)`.
pub open spec fn spec_shuffle(n: usize, x: u64, t: nat) -> Seq<usize>
    decreases t,
{
    if t == 0 {
        spec_identity(n)
    } else {
        let v = spec_shuffle(n, x, (t - 1) as nat);
        let a = (t - 1) as int;
        let j = a + spec_below(spec_advance(x, (t - 1) as nat), (n - a) as usize);
        v.update(a, v[j]).update(j, v[a])
    }
}

/// The members of `chosen` below `m`, in increasing order.
pub open spec fn spec_members(m: nat, chosen: Set<usize>) -> Seq<usize>
    decreases m,
{
    if m == 0 {
        Seq::empty()
    } else {
        let prev = spec_members((m - 1) as nat, chosen);
        if chosen.contains((m - 1) as usize) {
            prev.push((m - 1) as usize)
        } else {
            prev
        }
    }
}

/// The draw of `min(k, n)` distinct indices of `0..n`: the first `min(k, n)`
/// entries of the partial shuffle, in increasing order.
pub open spec fn spec_sample(n: usize, k: usize, x: u64) -> Seq<usize> {
    let kk: nat = if k < n { k as nat } else { n as nat };
    spec_members(n as nat, spec_shuffle(n, x, kk).take(kk as int).to_set())
}

/// Keep, in increasing order, the numbers below `n` marked in `marked`.
fn collect_marked(marked: &Vec<bool>, n: usize, Ghost(chosen): Ghost<Set<usize>>) -> (r: Vec<usize>)
    requires
        marked@.len() == n,
        forall|v: usize| v < n ==> (marked@[v as int] <==> chosen.contains(v)),
    ensures
        r@ == spec_members(n as nat, chosen),
{
    let mut r: Vec<usize> = Vec::new();
    let mut i: usize = 0;
    while i < n
        invariant
            i <= n,
            marked@.len() == n,
            forall|v: usize| v < n ==> (marked@[v as int] <==> chosen.contains(v)),
            r@ == spec_members(i as nat, chosen),
        decreases n - i,
    {
        if marked[i] {
            r.push(i);
        }
        i = i + 1;
    }
    r
}

/// The distinct values among the first `count` entries of `vals`, all below
/// `n`, in increasing order.
fn sorted_members(vals: &Vec<usize>, count: usize, n: usize) -> (r: Vec<usize>)
    requires
        count <= vals@.len(),
        forall|q: int| 0 <= q < count ==> vals@[q] < n,
    ensures
        r@ == spec_members(n as nat, vals@.take(count as int).to_set()),
{
    let ghost chosen = vals@.take(count as int).to_set();
    let mut marked: Vec<bool> = Vec::new();
    let mut m: usize = 0;
    while m < n
        invariant
            m <= n,
            marked@.len() == m,
            forall|q: int| 0 <= q < m ==> !marked@[q],
        decreases n - m,
    {
        marked.push(false);
        m = m + 1;
    }
    let mut u: usize = 0;
    while u < count
        invariant
            count <= vals@.len(),
            u <= count,
            forall|q: int| 0 <= q < count ==> vals@[q] < n,
            marked@.len() == n,
            forall|v: usize| v < n ==> (marked@[v as int] <==> vals@.take(u as int).contains(v)),
        decreases count - u,
    {
        let v = vals[u];
        marked.set(v, true);
        proof {
            assert forall|w: usize| w < n implies (marked@[w as int] <==> vals@.take(
                (u + 1) as int,
            ).contains(w)) by {
                if vals@.take(u as int).contains(w) {
                    let q = choose|q: int|
                        0 <= q < vals@.take(u as int).len() && #[trigger] vals@.take(u as int)[q]
                            == w;
                    assert(vals@.take((u + 1) as int)[q] == w);
                }
                if vals@.take((u + 1) as int).contains(w) && w != v {
                    let q = choose|q: int|
                        0 <= q < vals@.take((u + 1) as int).len() && #[trigger] vals@.take(
                            (u + 1) as int,
                        )[q] == w;
                    assert(vals@.take(u as int)[q] == w);
                }
                if w == v {
                    assert(vals@.take((u + 1) as int)[u as int] == w);
                }
            }
        }
        u = u + 1;
    }
    collect_marked(&marked, n, Ghost(chosen))
}

/// Draw `min(k, n)` distinct indices from `0..n` by a partial Fisher–Yates
/// shuffle, returned in increasing order. The generator steps once per draw.
pub fn sample_without_replacement(n: usize, k: usize, rng: &mut Rng) -> (r: Vec<usize>)
    ensures
        r@ == spec_sample(n, k, old(rng)@),
        final(rng)@ == spec_advance(old(rng)@, if k < n { k as nat } else { n as nat }),
        forall|q: int| 0 <= q < r@.len() ==> r@[q] < n,
{
    let ghost x = rng@;
    let k = if k < n {
        k
    } else {
        n
    };
    let mut idx: Vec<usize> = Vec::new();
    let mut i: usize = 0;
    while i < n
        invariant
            i <= n,
            idx@ == spec_identity(n).take(i as int),
        decreases n - i,
    {
        idx.push(i);
        i = i + 1;
        proof {
            assert(idx@ =~= spec_identity(n).take(i as int));
        }
    }
    assert(idx@ =~= spec_identity(n));
    let mut t: usize = 0;
    while t < k
        invariant
            k <= n,
            t <= k,
            idx@ == spec_shuffle(n, x, t as nat),
            rng@ == spec_advance(x, t as nat),
            idx@.len() == n,
            forall|q: int| 0 <= q < n ==> idx@[q] < n,
        decreases k - t,
    {
        let j = t + rng.below(n - t);
        let vt = idx[t];
        let vj = idx[j];
        idx.set(t, vj);
        idx.set(j, vt);
        t = t + 1;
    }
    let r = sorted_members(&idx, k, n);
    proof {
        lemma_members_below(n as nat, idx@.take(k as int).to_set());
    }
    r
}

/// Every value of `spec_members(m, _)` is below `m`.
pub proof fn lemma_members_below(m: nat, chosen: Set<usize>)
    ensures
        forall|q: int|
            0 <= q < spec_members(m, chosen).len() ==> (spec_members(m, chosen)[q] as nat) < m,
    decreases m,
{
    if m > 0 {
        lemma_members_below((m - 1) as nat, chosen);
        let prev = spec_members((m - 1) as nat, chosen);
        assert forall|q: int|
            0 <= q < spec_members(m, chosen).len() implies (spec_members(m, chosen)[q] as nat)
            < m by {
            if q < prev.len() {
                assert(spec_members(m, chosen)[q] == prev[q]);
            }
        }
    }
}

/// Width of each boundary strip of `0..n` when strips of `width` are asked
/// for: `width`, or `n / 2` when that is smaller, so the strips never overlap.
pub open spec fn spec_edge(n: usize, width: usize) -> usize {
    if width <= n / 2 { width } else { n / 2 }
}

/// The two boundary strips `0..edge` and `n-edge..n`.
pub open spec fn spec_strips(n: usize, width: usize) -> Seq<usize> {
    let e = spec_edge(n, width);
    Seq::new(e as nat, |i: int| i as usize) + Seq::new(e as nat, |i: int| (n - e + i) as usize)
}

/// The geometric ladder of offsets from both boundaries, starting at offset
/// `off` with `len` indices already taken: `off - 1` and `n - off` while
/// `off < n/2` and two more indices still fit in `k`, then the offset doubles.
pub open spec fn spec_ladder(n: usize, k: usize, off: nat, len: nat) -> Seq<usize>
    decreases n - off,
{
    if 0 < off && off < n / 2 && len + 2 <= k {
        seq![(off - 1) as usize, (n - off) as usize] + spec_ladder(n, k, 2 * off, len + 2)
    } else {
        Seq::empty()
    }
}

/// The deterministic part of a stratified sample: strips, then ladder.
pub open spec fn spec_stratified_prefix(n: usize, k: usize) -> Seq<usize> {
    spec_strips(n, 2) + spec_ladder(n, k, 2, spec_strips(n, 2).len())
}

/// How many uniform draws a stratified sample takes from the generator.
pub open spec fn spec_stratified_draws(n: usize, k: usize) -> nat {
    let pre = spec_stratified_prefix(n, k);
    if k >= n || pre.len() >= k {
        0
    } else {
        let e = (k - pre.len()) as nat;
        if e < n { e } else { n as nat }
    }
}

/// The first `len` entries of `s`, or all of `s` when it is shorter.
pub open spec fn spec_truncate(s: Seq<usize>, len: nat) -> Seq<usize> {
    if s.len() <= len {
        s
    } else {
        s.take(len as int)
    }
}

/// A stratified index set of `0..n` of at most `k` entries: all of `0..n`
/// when `k ≥ n`; otherwise the first `k` of strips, ladder and a uniform
/// fill of the remaining count, deduplicated and in increasing order.
pub open spec fn spec_stratified(n: usize, k: usize, x: u64) -> Seq<usize> {
    if k >= n {
        spec_identity(n)
    } else {
        let pre = spec_stratified_prefix(n, k);
        let cand = if pre.len() < k {
            pre + spec_sample(n, (k - pre.len()) as usize, x)
        } else {
            pre
        };
        spec_members(n as nat, spec_truncate(cand, k as nat).to_set())
    }
}

/// `0, 1, …, n-1` as a vector.
fn identity_vec(n: usize) -> (r: Vec<usize>)
    ensures
        r@ == spec_identity(n),
{
    let mut all: Vec<usize> = Vec::new();
    let mut i: usize = 0;
    while i < n
        invariant
            i <= n,
            all@ == spec_identity(n).take(i as int),
        decreases n - i,
    {
        all.push(i);
        i = i + 1;
        proof {
            assert(all@ =~= spec_identity(n).take(i as int));
        }
    }
    assert(all@ =~= spec_identity(n));
    all
}

/// The two boundary strips of `0..n`, each `width` wide where `n` allows.
fn strips(n: usize, width: usize) -> (out: Vec<usize>)
    ensures
        out@ == spec_strips(n, width),
        forall|q: int| 0 <= q < out@.len() ==> out@[q] < n,
{
    let mut out: Vec<usize> = Vec::new();
    let edge: usize = if width <= n / 2 {
        width
    } else {
        n / 2
    };
    let mut i: usize = 0;
    while i < edge
        invariant
            edge == spec_edge(n, width),
            i <= edge,
            out@ == Seq::new(i as nat, |q: int| q as usize),
        decreases edge - i,
    {
        out.push(i);
        i = i + 1;
        proof {
            assert(out@ =~= Seq::new(i as nat, |q: int| q as usize));
        }
    }
    let mut i: usize = n - edge;
    while i < n
        invariant
            edge == spec_edge(n, width),
            edge <= n / 2,
            n - edge <= i <= n,
            out@ == Seq::new(edge as nat, |q: int| q as usize) + Seq::new(
                (i - (n - edge)) as nat,
                |q: int| (n - edge + q) as usize,
            ),
        decreases n - i,
    {
        out.push(i);
        i = i + 1;
        proof {
            assert(out@ =~= Seq::new(edge as nat, |q: int| q as usize) + Seq::new(
                (i - (n - edge)) as nat,
                |q: int| (n - edge + q) as usize,
            ));
        }
    }
    assert(out@ =~= spec_strips(n, width));
    out
}

/// Strips, then the geometric ladder.
fn stratified_prefix(n: usize, k: usize) -> (out: Vec<usize>)
    requires
        k < n,
    ensures
        out@ == spec_stratified_prefix(n, k),
        forall|q: int| 0 <= q < out@.len() ==> out@[q] < n,
{
    let mut out = strips(n, 2);
    let ghost pre = spec_stratified_prefix(n, k);
    let mut off: usize = 2;
    while off < n / 2 && 2 <= k && out.len() <= k - 2
        invariant
            k < n,
            2 <= off,
            out@ + spec_ladder(n, k, off as nat, out@.len()) == pre,
            forall|q: int| 0 <= q < out@.len() ==> out@[q] < n,
        decreases n - off,
    {
        let ghost before = out@;
        out.push(off - 1);
        out.push(n - off);
        proof {
            assert(out@ =~= before + seq![(off - 1) as usize, (n - off) as usize]);
            assert(before + spec_ladder(n, k, off as nat, before.len()) =~= out@ + spec_ladder(
                n,
                k,
                (2 * off) as nat,
                out@.len(),
            ));
        }
        off = off * 2;
    }
    proof {
        assert(out@ + spec_ladder(n, k, off as nat, out@.len()) =~= out@);
    }
    out
}

/// Append every entry of `extra` to `out`.
fn append_all(out: &mut Vec<usize>, extra: &Vec<usize>, n: usize)
    requires
        forall|q: int| 0 <= q < old(out)@.len() ==> old(out)@[q] < n,
        forall|q: int| 0 <= q < extra@.len() ==> extra@[q] < n,
    ensures
        final(out)@ == old(out)@ + extra@,
        forall|q: int| 0 <= q < final(out)@.len() ==> final(out)@[q] < n,
{
    let ghost base = out@;
    let mut t: usize = 0;
    while t < extra.len()
        invariant
            t <= extra@.len(),
            out@ == base + extra@.take(t as int),
            forall|q: int| 0 <= q < base.len() ==> base[q] < n,
            forall|q: int| 0 <= q < extra@.len() ==> extra@[q] < n,
        decreases extra@.len() - t,
    {
        out.push(extra[t]);
        t = t + 1;
        proof {
            assert(out@ =~= base + extra@.take(t as int));
        }
    }
    assert(extra@.take(extra@.len() as int) =~= extra@);
}

/// Stratified index set for Cauchy-type blocks: the dominant singular
/// directions concentrate near the shared boundary of adjacent ranges, so
/// probe both boundary strips, a geometric ladder of offsets covering the
/// decay profile, then fill the rest uniformly at random.
pub fn stratified_sample(n: usize, k: usize, rng: &mut Rng) -> (r: Vec<usize>)
    ensures
        r@ == spec_stratified(n, k, old(rng)@),
        final(rng)@ == spec_advance(old(rng)@, spec_stratified_draws(n, k)),
{
    if k >= n {
        return identity_vec(n);
    }
    let ghost x = rng@;
    let mut out = stratified_prefix(n, k);
    let ghost pre = out@;
    if out.len() < k {
        let extra = sample_without_replacement(n, k - out.len(), rng);
        append_all(&mut out, &extra, n);
    }
    let count = if out.len() < k {
        out.len()
    } else {
        k
    };
    assert(out@.take(count as int) =~= spec_truncate(out@, k as nat));
    sorted_members(&out, count, n)
}

/// Width of the boundary strips of rows and of test columns in each round of
/// the randomized compression.
pub const ROUND_STRIP: usize = 4;

/// Uniformly drawn test columns of each validation round, besides the strips.
pub const PROBE_COLUMNS: usize = 8;

/// How many extra rows a fit on `ell` basis columns draws: twice `ell` less
/// the `strip_len` boundary rows (none when the strips suffice), at most `m`.
pub open spec fn spec_extra_rows(m: usize, ell: usize, strip_len: nat) -> usize {
    let wanted: int = if 2 * ell > strip_len { 2 * ell - strip_len } else { 0 };
    if wanted < m { wanted as usize } else { m }
}

/// The rows of `0..m` on which the row space is fitted: both boundary strips
/// (where the kernel mass of adjacent ranges sits) and a stratified sample of
/// the extra rows, deduplicated and in increasing order.
pub open spec fn spec_fit_rows(m: usize, ell: usize, x: u64) -> Seq<usize> {
    let st = spec_strips(m, ROUND_STRIP);
    let extra = spec_extra_rows(m, ell, st.len());
    spec_members(m as nat, (st + spec_stratified(m, extra, x)).to_set())
}

/// The fitting rows of one round of the randomized compression of a block
/// with `m` target rows, for a basis of `ell` columns.
pub fn fit_rows(m: usize, ell: usize, rng: &mut Rng) -> (r: Vec<usize>)
    requires
        ell <= usize::MAX / 2,
    ensures
        r@ == spec_fit_rows(m, ell, old(rng)@),
        final(rng)@ == spec_advance(
            old(rng)@,
            spec_stratified_draws(m, spec_extra_rows(m, ell, spec_strips(m, ROUND_STRIP).len())),
        ),
        forall|i: int, j: int| 0 <= i < j < r@.len() ==> r@[i] < r@[j],
        forall|q: int| 0 <= q < r@.len() ==> r@[q] < m,
        forall|q: int|
            0 <= q < spec_strips(m, ROUND_STRIP).len() ==> r@.contains(
                #[trigger] spec_strips(m, ROUND_STRIP)[q],
            ),
{
    let ghost x = rng@;
    let mut rows = strips(m, ROUND_STRIP);
    let ghost st = rows@;
    let twice = 2 * ell;
    let wanted = if twice > rows.len() {
        twice - rows.len()
    } else {
        0
    };
    let extra = if wanted < m {
        wanted
    } else {
        m
    };
    let sample = stratified_sample(m, extra, rng);
    proof {
        lemma_stratified_shape(m, extra, x);
    }
    append_all(&mut rows, &sample, m);
    let count = rows.len();
    assert(rows@.take(count as int) =~= rows@);
    let r = sorted_members(&rows, count, m);
    proof {
        lemma_members_keep(m, rows@);
        assert(forall|q: int| 0 <= q < st.len() ==> rows@[q] == st[q]);
    }
    r
}

/// Listing the members below `m` of a sequence of indices below `m` keeps
/// each of its entries, in increasing order.
proof fn lemma_members_keep(m: usize, s: Seq<usize>)
    requires
        forall|q: int| 0 <= q < s.len() ==> s[q] < m,
    ensures
        forall|q: int| 0 <= q < s.len() ==> spec_members(m as nat, s.to_set()).contains(#[trigger] s[q]),
        forall|i: int, j: int|
            0 <= i < j < spec_members(m as nat, s.to_set()).len() ==> spec_members(m as nat, s.to_set())[i]
                < spec_members(m as nat, s.to_set())[j],
        forall|q: int|
            0 <= q < spec_members(m as nat, s.to_set()).len() ==> spec_members(m as nat, s.to_set())[q] < m,
{
    lemma_members_shape(m as nat, s.to_set());
    assert forall|q: int| 0 <= q < s.len() implies spec_members(m as nat, s.to_set()).contains(
        #[trigger] s[q],
    ) by {
        assert(s.to_set().contains(s[q]));
    }
}

/// The `count` draws below `n` of a generator that started in state `x`.
pub open spec fn spec_probe_draws(n: usize, x: u64, count: nat) -> Seq<usize> {
    Seq::new(count, |i: int| spec_below(spec_advance(x, i as nat), n))
}

/// The test columns of one validation round of a block with `n` source
/// columns: both boundary strips, then `PROBE_COLUMNS` uniform draws (which
/// may repeat a column).
pub fn test_columns(n: usize, rng: &mut Rng) -> (r: Vec<usize>)
    ensures
        r@ == spec_strips(n, ROUND_STRIP) + spec_probe_draws(n, old(rng)@, PROBE_COLUMNS as nat),
        final(rng)@ == spec_advance(old(rng)@, PROBE_COLUMNS as nat),
        n > 0 ==> forall|q: int| 0 <= q < r@.len() ==> r@[q] < n,
{
    let ghost x = rng@;
    let mut cols = strips(n, ROUND_STRIP);
    let ghost st = cols@;
    let mut t: usize = 0;
    while t < PROBE_COLUMNS
        invariant
            t <= PROBE_COLUMNS,
            rng@ == spec_advance(x, t as nat),
            cols@ == st + spec_probe_draws(n, x, t as nat),
            forall|q: int| 0 <= q < st.len() ==> st[q] < n,
            n > 0 ==> forall|q: int| 0 <= q < cols@.len() ==> cols@[q] < n,
        decreases PROBE_COLUMNS - t,
    {
        let c = rng.below(n);
        cols.push(c);
        t = t + 1;
        proof {
            assert(cols@ =~= st + spec_probe_draws(n, x, t as nat));
        }
    }
    cols
}

/// The sample sizes requested from round to round, starting at `r`: each
/// round that is not saturated (`r` below both the rank cap and `lim`)
/// doubles the request, capped at `max_rank`.
pub open spec fn spec_requests(r: usize, max_rank: usize, lim: usize) -> Seq<usize>
    decreases max_rank - r,
    when 0 < r
{
    if r >= max_rank || r >= lim {
        seq![r]
    } else {
        let next: usize = if 2 * r < max_rank { (2 * r) as usize } else { max_rank };
        seq![r] + spec_requests(next, max_rank, lim)
    }
}

/// The first request of a block with `m` target rows and `n` source columns.
pub open spec fn spec_first_request(start: usize, max_rank: usize, m: usize, n: usize) -> usize {
    let cells: int = (if m == 0 { 1 } else { m as int }) * (if n == 0 { 1 } else { n as int });
    let a: usize = if start < max_rank { start } else { max_rank };
    if (a as int) < cells { a } else { cells as usize }
}

/// Every request of the randomized compression of an `m × n` block that
/// never meets its tolerance: the first request, doubled round by round
/// until it reaches the rank cap or `min(m, n)`.
pub open spec fn spec_rank_schedule(start: usize, max_rank: usize, m: usize, n: usize) -> Seq<usize> {
    let first = spec_first_request(start, max_rank, m, n);
    let lim: usize = if m < n { m } else { n };
    if first == 0 { seq![0usize] } else { spec_requests(first, max_rank, lim) }
}

/// The rounds of a schedule: it is not empty, starts at the first request,
/// grows strictly, doubles (capped at `max_rank`) from one round to the
/// next, stays at most `max_rank`, and stops at the first saturated round.
pub proof fn lemma_requests_shape(r: usize, max_rank: usize, lim: usize)
    requires
        0 < r <= max_rank,
    ensures
        spec_requests(r, max_rank, lim).len() >= 1,
        spec_requests(r, max_rank, lim)[0] == r,
        forall|i: int, j: int|
            0 <= i < j < spec_requests(r, max_rank, lim).len() ==> spec_requests(r, max_rank, lim)[i]
                < spec_requests(r, max_rank, lim)[j],
        forall|i: int|
            0 <= i < spec_requests(r, max_rank, lim).len() ==> spec_requests(r, max_rank, lim)[i]
                <= max_rank,
        forall|i: int|
            0 <= i < spec_requests(r, max_rank, lim).len() - 1 ==> spec_requests(r, max_rank, lim)[i]
                < max_rank && spec_requests(r, max_rank, lim)[i] < lim,
        forall|i: int|
            #![trigger spec_requests(r, max_rank, lim)[i]]
            0 <= i < spec_requests(r, max_rank, lim).len() - 1 ==> spec_requests(r, max_rank, lim)[i
                + 1] as int == (if 2 * spec_requests(r, max_rank, lim)[i] < max_rank {
                2 * spec_requests(r, max_rank, lim)[i]
            } else {
                max_rank as int
            }),
        spec_requests(r, max_rank, lim).last() >= max_rank || spec_requests(r, max_rank, lim).last()
            >= lim,
    decreases max_rank - r,
{
    let s = spec_requests(r, max_rank, lim);
    if r >= max_rank || r >= lim {
        assert(s == seq![r]);
    } else {
        let next: usize = if 2 * r < max_rank { (2 * r) as usize } else { max_rank };
        lemma_requests_shape(next, max_rank, lim);
        let t = spec_requests(next, max_rank, lim);
        assert(s == seq![r] + t);
        assert forall|i: int, j: int| 0 <= i < j < s.len() implies s[i] < s[j] by {
            if i == 0 {
                assert(s[j] == t[j - 1]);
                assert(t[0] <= t[j - 1]) by {
                    if j - 1 > 0 {
                        assert(t[0] < t[j - 1]);
                    }
                }
            } else {
                assert(s[i] == t[i - 1] && s[j] == t[j - 1]);
            }
        }
        assert forall|i: int| #![trigger s[i]] 0 <= i < s.len() - 1 implies s[i + 1] as int == (if 2 * s[i]
            < max_rank {
            2 * s[i]
        } else {
            max_rank as int
        }) by {
            if i > 0 {
                assert(s[i] == t[i - 1] && s[i + 1] == t[i]);
            }
        }
        assert forall|i: int| 0 <= i < s.len() - 1 implies s[i] < max_rank && s[i] < lim by {
            if i > 0 {
                assert(s[i] == t[i - 1]);
            }
        }
        assert(s.last() == t.last());
    }
}

/// The sample sizes that the randomized compression of an `m × n` block
/// requests round after round (`start` is the tolerance's first rank) when
/// no round meets the tolerance; a round that does meet it ends the list
/// early. The list doubles from round to round, capped at `max_rank`, and
/// ends at the first round whose request reaches the cap or `min(m, n)`.
pub fn rank_schedule(start: usize, max_rank: usize, m: usize, n: usize) -> (r: Vec<usize>)
    requires
        1 <= start,
        (if m == 0 { 1 } else { m as int }) * (if n == 0 { 1 } else { n as int }) <= usize::MAX,
    ensures
        r@ == spec_rank_schedule(start, max_rank, m, n),
        r@.len() >= 1,
        r@[0] == spec_first_request(start, max_rank, m, n),
        forall|i: int, j: int| 0 <= i < j < r@.len() ==> r@[i] < r@[j],
        forall|i: int| 0 <= i < r@.len() ==> r@[i] <= max_rank,
        r@.last() >= max_rank || r@.last() >= m || r@.last() >= n,
        forall|i: int| 0 <= i < r@.len() - 1 ==> r@[i] < max_rank && r@[i] < m && r@[i] < n,
        forall|i: int|
            #![trigger r@[i]]
            0 <= i < r@.len() - 1 ==> r@[i + 1] as int == (if 2 * r@[i] < max_rank {
                2 * r@[i]
            } else {
                max_rank as int
            }),
{
    let mm: usize = if m == 0 {
        1
    } else {
        m
    };
    let nn: usize = if n == 0 {
        1
    } else {
        n
    };
    let cells = mm * nn;
    let capped = if start < max_rank {
        start
    } else {
        max_rank
    };
    let first = if capped < cells {
        capped
    } else {
        cells
    };
    let lim = if m < n {
        m
    } else {
        n
    };
    assert(cells >= 1) by (nonlinear_arith)
        requires
            cells == mm * nn,
            mm >= 1,
            nn >= 1,
    ;
    assert(first == spec_first_request(start, max_rank, m, n));
    let mut out: Vec<usize> = Vec::new();
    if first == 0 {
        out.push(0);
        assert(out@ =~= seq![0usize]);
        return out;
    }
    let ghost whole = spec_requests(first, max_rank, lim);
    proof {
        lemma_requests_shape(first, max_rank, lim);
    }
    let mut req = first;
    loop
        invariant
            0 < first <= max_rank,
            first == spec_first_request(start, max_rank, m, n),
            lim == (if m < n { m } else { n }),
            whole == spec_requests(first, max_rank, lim),
            0 < req <= max_rank,
            out@ + spec_requests(req, max_rank, lim) == whole,
        decreases max_rank - req,
    {
        let ghost before = out@;
        out.push(req);
        if req >= max_rank || req >= lim {
            proof {
                assert(out@ =~= before + spec_requests(req, max_rank, lim));
                lemma_requests_shape(first, max_rank, lim);
            }
            return out;
        }
        let next = if req > max_rank / 2 {
            max_rank
        } else {
            2 * req
        };
        proof {
            assert(before + spec_requests(req, max_rank, lim) =~= out@ + spec_requests(
                next,
                max_rank,
                lim,
            ));
        }
        req = next;
    }
}

/// The seed of a child block: `2·seed + 1` for the left half and `2·seed`
/// for the right half, in wrapping 64-bit arithmetic, so that sequential and
/// parallel traversals visit identical seeds whatever the join order.
pub fn child_seed(seed: u64, left: bool) -> (r: u64)
    ensures
        r == seed.wrapping_mul(2).wrapping_add(if left { 1u64 } else { 0u64 }),
{
    let bit: u64 = if left {
        1
    } else {
        0
    };
    seed.wrapping_mul(2).wrapping_add(bit)
}

/// The two children of a block never share a seed: the left seed is odd
/// and the right one even, whatever the parent's seed.
pub proof fn lemma_sibling_seeds_differ(seed: u64)
    ensures
        seed.wrapping_mul(2).wrapping_add(1u64) != seed.wrapping_mul(2).wrapping_add(0u64),
        seed.wrapping_mul(2).wrapping_add(1u64) % 2 == 1,
        seed.wrapping_mul(2).wrapping_add(0u64) % 2 == 0,
{
    let d = seed.wrapping_mul(2);
    assert(d % 2 == 0) by (bit_vector)
        requires
            d == seed.wrapping_mul(2),
    ;
    assert(d < u64::MAX);
    assert(d.wrapping_add(1u64) == d + 1);
    assert(d.wrapping_add(0u64) == d);
}

/// Where a node's sorted range `[lo, hi)` splits: at `lo + below`, where
/// `below` counts the entries at or under the value midpoint, unless that
/// leaves one side empty; then at the index midpoint.
pub fn split_index(lo: usize, hi: usize, below: usize) -> (r: usize)
    requires
        lo < hi,
        below <= hi - lo,
    ensures
        r == (if below == 0 || below == hi - lo { ((lo + hi) / 2) as usize } else { (lo + below) as usize }),
        hi - lo >= 2 ==> lo < r < hi,
{
    let mid = below + lo;
    if mid == lo || mid == hi {
        lo + (hi - lo) / 2
    } else {
        mid
    }
}

/// Put the sums computed in sorted order back in the caller's order: entry
/// `s` of `sorted_values` belongs to original index `perm[s]`. Positions that
/// `perm` never names hold `fill`.
pub fn restore_order<T: Copy>(sorted_values: &Vec<T>, perm: &Vec<u32>, fill: T) -> (r: Vec<T>)
    requires
        perm@.len() == sorted_values@.len(),
        perm@.no_duplicates(),
        forall|s: int| 0 <= s < perm@.len() ==> (perm@[s] as int) < perm@.len(),
    ensures
        r@.len() == sorted_values@.len(),
        forall|s: int| 0 <= s < perm@.len() ==> #[trigger] r@[perm@[s] as int] == sorted_values@[s],
{
    let p = sorted_values.len();
    let mut ordered: Vec<T> = Vec::new();
    let mut i: usize = 0;
    while i < p
        invariant
            i <= p,
            p == sorted_values@.len(),
            ordered@.len() == i,
        decreases p - i,
    {
        ordered.push(fill);
        i = i + 1;
    }
    let mut s: usize = 0;
    while s < p
        invariant
            s <= p,
            p == sorted_values@.len(),
            perm@.len() == p,
            perm@.no_duplicates(),
            forall|t: int| 0 <= t < p ==> (perm@[t] as int) < p,
            ordered@.len() == p,
            forall|t: int| 0 <= t < s ==> #[trigger] ordered@[perm@[t] as int] == sorted_values@[t],
        decreases p - s,
    {
        let target = perm[s] as usize;
        ordered.set(target, sorted_values[s]);
        proof {
            assert forall|t: int| 0 <= t < s + 1 implies #[trigger] ordered@[perm@[t] as int]
                == sorted_values@[t] by {
                if t < s {
                    assert(perm@[t] != perm@[s as int]);
                }
            }
        }
        s = s + 1;
    }
    ordered
}

/// The members listing is strictly increasing, stays below `m`, and lists
/// exactly the members of `chosen` below `m`.
pub proof fn lemma_members_shape(m: nat, chosen: Set<usize>)
    requires
        m <= usize::MAX + 1,
    ensures
        forall|i: int, j: int|
            0 <= i < j < spec_members(m, chosen).len() ==> spec_members(m, chosen)[i]
                < spec_members(m, chosen)[j],
        forall|q: int|
            0 <= q < spec_members(m, chosen).len() ==> (spec_members(m, chosen)[q] as nat) < m,
        forall|v: usize|
            spec_members(m, chosen).contains(v) <==> (chosen.contains(v) && (v as nat) < m),
    decreases m,
{
    lemma_members_below(m, chosen);
    if m > 0 {
        let prev = spec_members((m - 1) as nat, chosen);
        lemma_members_shape((m - 1) as nat, chosen);
        let cur = spec_members(m, chosen);
        assert forall|v: usize| cur.contains(v) <==> (chosen.contains(v) && (v as nat) < m) by {
            if cur.contains(v) {
                let q = choose|q: int| 0 <= q < cur.len() && cur[q] == v;
                if q < prev.len() {
                    assert(prev[q] == v);
                }
            }
            if chosen.contains(v) && (v as nat) < m {
                if (v as nat) < m - 1 {
                    let q = choose|q: int| 0 <= q < prev.len() && prev[q] == v;
                    assert(cur[q] == v);
                } else {
                    assert(cur[cur.len() - 1] == v);
                }
            }
        }
        assert forall|i: int, j: int| 0 <= i < j < cur.len() implies cur[i] < cur[j] by {
            if j < prev.len() {
                assert(cur[i] == prev[i] && cur[j] == prev[j]);
            } else {
                assert(cur[i] == prev[i]);
            }
        }
    }
}

/// Each partial shuffle of `0..n` (at most `n` swaps) is a permutation of
/// `0..n`: `n` entries, all below `n`, no two equal.
pub proof fn lemma_shuffle_is_permutation(n: usize, x: u64, t: nat)
    requires
        t <= n,
    ensures
        spec_shuffle(n, x, t).len() == n,
        forall|q: int| 0 <= q < n ==> spec_shuffle(n, x, t)[q] < n,
        spec_shuffle(n, x, t).no_duplicates(),
    decreases t,
{
    if t > 0 {
        lemma_shuffle_is_permutation(n, x, (t - 1) as nat);
        let v = spec_shuffle(n, x, (t - 1) as nat);
        let a = (t - 1) as int;
        let j = a + spec_below(spec_advance(x, (t - 1) as nat), (n - a) as usize);
        let w = spec_shuffle(n, x, t);
        assert(w == v.update(a, v[j]).update(j, v[a]));
        assert forall|p: int, q: int| 0 <= p < w.len() && 0 <= q < w.len() && p != q implies w[p]
            != w[q] by {
            let vp = if p == j { a } else if p == a { j } else { p };
            let vq = if q == j { a } else if q == a { j } else { q };
            assert(w[p] == v[vp]);
            assert(w[q] == v[vq]);
        }
    }
}

/// A draw of `min(k, n)` indices: strictly increasing, all below `n`, and
/// exactly `min(k, n)` of them.
pub proof fn lemma_sample_shape(n: usize, k: usize, x: u64)
    ensures
        forall|i: int, j: int|
            0 <= i < j < spec_sample(n, k, x).len() ==> spec_sample(n, k, x)[i] < spec_sample(
                n,
                k,
                x,
            )[j],
        forall|q: int| 0 <= q < spec_sample(n, k, x).len() ==> spec_sample(n, k, x)[q] < n,
        spec_sample(n, k, x).len() == (if k < n { k } else { n }),
{
    let kk: nat = if k < n { k as nat } else { n as nat };
    lemma_shuffle_is_permutation(n, x, kk);
    let s = spec_shuffle(n, x, kk).take(kk as int);
    let chosen = s.to_set();
    let r = spec_members(n as nat, chosen);
    lemma_members_shape(n as nat, chosen);
    assert(s.no_duplicates());
    s.unique_seq_to_set();
    assert(r.no_duplicates());
    r.unique_seq_to_set();
    assert(r.to_set() =~= chosen);
}

/// A stratified sample is all of `0..n` when `k ≥ n`; otherwise it is
/// strictly increasing, below `n`, and holds at most `k` indices.
pub proof fn lemma_stratified_shape(n: usize, k: usize, x: u64)
    ensures
        k >= n ==> spec_stratified(n, k, x) == spec_identity(n),
        forall|i: int, j: int|
            0 <= i < j < spec_stratified(n, k, x).len() ==> spec_stratified(n, k, x)[i]
                < spec_stratified(n, k, x)[j],
        forall|q: int| 0 <= q < spec_stratified(n, k, x).len() ==> spec_stratified(n, k, x)[q] < n,
        spec_stratified(n, k, x).len() <= k,
{
    if k < n {
        let pre = spec_stratified_prefix(n, k);
        let cand = if pre.len() < k {
            pre + spec_sample(n, (k - pre.len()) as usize, x)
        } else {
            pre
        };
        let t = spec_truncate(cand, k as nat);
        let chosen = t.to_set();
        let r = spec_members(n as nat, chosen);
        lemma_members_shape(n as nat, chosen);
        assert(r.no_duplicates());
        r.unique_seq_to_set();
        seq_to_set_is_finite(t);
        lemma_len_subset(r.to_set(), chosen);
        t.lemma_cardinality_of_set();
    } else {
        assert forall|i: int, j: int|
            0 <= i < j < spec_identity(n).len() implies spec_identity(n)[i] < spec_identity(n)[j] by {
        }
    }
}

} // verus!
