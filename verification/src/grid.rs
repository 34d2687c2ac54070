//! Sizing of the FFT grids, of the interpolation stencils that move mass on
//! and off them, and of the tiles of the cache-blocked kernel.
use vstd::prelude::*;

verus! {

/// `2^k`.
pub open spec fn power_of_two(k: nat) -> nat
    decreases k,
{
    if k == 0 {
        1
    } else {
        2 * power_of_two((k - 1) as nat)
    }
}

/// Powers of two grow with the exponent.
pub proof fn lemma_power_of_two_monotone(i: nat, j: nat)
    requires
        i <= j,
    ensures
        power_of_two(i) <= power_of_two(j),
    decreases j,
{
    if i < j {
        lemma_power_of_two_monotone(i, (j - 1) as nat);
    }
}

/// Smallest power of two that is at least `n` (`1` for `n == 0`).
pub fn next_pow2(n: usize) -> (r: usize)
    requires
        n <= usize::MAX / 2 + 1,
    ensures
        exists|k: nat| r == power_of_two(k),
        n <= r,
        forall|k: nat| n <= power_of_two(k) ==> r <= power_of_two(k),
{
    let mut p: usize = 1;
    let ghost mut e: nat = 0;
    while p < n
        invariant
            n <= usize::MAX / 2 + 1,
            p == power_of_two(e),
            p >= 1,
            e == 0 || power_of_two((e - 1) as nat) < n,
        decreases usize::MAX - p,
    {
        p = p * 2;
        proof {
            e = e + 1;
        }
    }
    assert forall|k: nat| n <= power_of_two(k) implies p <= power_of_two(k) by {
        if k < e {
            lemma_power_of_two_monotone(k, (e - 1) as nat);
        } else {
            lemma_power_of_two_monotone(e, k);
        }
    }
    p
}

/// The largest FFT grid any kernel builds on its own: `2^20` points.
pub const MAX_AUTO_GRID: usize = 1048576;

/// The point count of an FFT grid.
pub open spec fn spec_fft_grid_points(resolution: usize, floor: usize, m_override: Option<usize>) -> int {
    match m_override {
        Some(m) => m as int,
        None => {
            let wanted = if resolution < floor { floor } else { resolution };
            let capped = if wanted > MAX_AUTO_GRID { MAX_AUTO_GRID } else { wanted };
            capped as int
        },
    }
}

/// Number of points of an FFT grid: the caller's explicit count when given,
/// otherwise the next power of two above the resolution requirement,
/// raised to the size floor and capped at [`MAX_AUTO_GRID`] points.
pub fn fft_grid_points(resolution: usize, floor: usize, m_override: Option<usize>) -> (r: usize)
    ensures
        m_override is Some ==> r == m_override->0,
        m_override is None ==> {
            &&& spec_fft_grid_points(resolution, floor, m_override) <= r
            &&& exists|k: nat| r == power_of_two(k)
            &&& forall|k: nat|
                spec_fft_grid_points(resolution, floor, m_override) <= power_of_two(k) ==> r
                    <= power_of_two(k)
            &&& 1 <= r <= MAX_AUTO_GRID
            &&& floor <= MAX_AUTO_GRID ==> floor <= r
            &&& resolution <= MAX_AUTO_GRID ==> resolution <= r
            &&& (resolution > MAX_AUTO_GRID || floor > MAX_AUTO_GRID) ==> r == MAX_AUTO_GRID
        },
{
    match m_override {
        Some(m) => m,
        None => {
            let wanted = if resolution < floor {
                floor
            } else {
                resolution
            };
            let capped = if wanted > MAX_AUTO_GRID {
                MAX_AUTO_GRID
            } else {
                wanted
            };
            let r = next_pow2(capped);
            proof {
                assert(power_of_two(20) == MAX_AUTO_GRID) by {
                    reveal_with_fuel(power_of_two, 21);
                }
                lemma_power_of_two_positive(choose|k: nat| r == power_of_two(k));
            }
            r
        },
    }
}

/// Without an override the grid asks for at least the resolution and at
/// least the floor, as far as the cap allows, and never more than the cap.
pub proof fn lemma_fft_grid_covers_the_requirement(resolution: usize, floor: usize)
    ensures
        spec_fft_grid_points(resolution, floor, None) <= MAX_AUTO_GRID,
        floor <= MAX_AUTO_GRID ==> floor <= spec_fft_grid_points(resolution, floor, None),
        resolution <= MAX_AUTO_GRID ==> resolution <= spec_fft_grid_points(resolution, floor, None),
        (resolution > MAX_AUTO_GRID || floor > MAX_AUTO_GRID) ==> spec_fft_grid_points(
            resolution,
            floor,
            None,
        ) == MAX_AUTO_GRID,
{
}

/// Every power of two is at least one.
pub proof fn lemma_power_of_two_positive(k: nat)
    ensures
        power_of_two(k) >= 1,
    decreases k,
{
    if k > 0 {
        lemma_power_of_two_positive((k - 1) as nat);
    }
}

/// Interpolation order of the grid transfer (splat and interpolate).
#[derive(Debug, Clone, Copy, PartialEq, Eq, Structural)]
pub enum Order {
    /// 2-point stencil, error O(dx²).
    Linear,
    /// 4-point stencil, error O(dx⁴).
    Cubic,
    /// 6-point stencil, error O(dx⁶).
    Quintic,
    /// 8-point stencil, error O(dx⁸); the default.
    Heptic,
}

/// Number of stencil nodes of each order.
pub open spec fn spec_order_nodes(o: Order) -> nat {
    match o {
        Order::Linear => 2,
        Order::Cubic => 4,
        Order::Quintic => 6,
        Order::Heptic => 8,
    }
}

impl Order {
    /// Number of stencil nodes (even).
    pub fn nodes(self) -> (r: usize)
        ensures
            r == spec_order_nodes(self),
    {
        match self {
            Order::Linear => 2,
            Order::Cubic => 4,
            Order::Quintic => 6,
            Order::Heptic => 8,
        }
    }
}

/// Offset of the first node of an `N`-point stencil from the cell that holds
/// the position: nodes sit at `i₀ + stencil_offset0 .. i₀ + N/2`.
pub fn stencil_offset0<const N: usize>() -> (r: isize)
    requires
        N <= isize::MAX,
    ensures
        r == -((N as int) / 2) + 1,
{
    let n: isize = N as isize;
    -n / 2 + 1
}

/// The grid cell that stencil node `j` of a position in cell `i0` lands on:
/// `i0 + (1 - nodes/2) + j`, clamped to the grid `0..m`.
pub open spec fn spec_stencil_cell(i0: int, nodes: nat, j: int, m: nat) -> int {
    let c = i0 - (nodes as int) / 2 + 1 + j;
    if c < 0 {
        0
    } else if c > m - 1 {
        m - 1
    } else {
        c
    }
}

/// The cells of the `nodes`-point stencil of a position in cell `i0` of an
/// `m`-cell grid, node by node; nodes that fall off either end of the grid
/// land on the end cell.
pub fn stencil_cells(i0: isize, nodes: usize, m: usize) -> (r: Vec<usize>)
    requires
        1 <= m <= isize::MAX,
        nodes <= isize::MAX,
        isize::MIN + (nodes as int) <= i0 < isize::MAX - (nodes as int),
    ensures
        r@.len() == nodes,
        forall|j: int|
            0 <= j < nodes ==> #[trigger] r@[j] as int == spec_stencil_cell(
                i0 as int,
                nodes as nat,
                j,
                m as nat,
            ),
        forall|j: int| 0 <= j < nodes ==> r@[j] < m,
        forall|j: int|
            0 <= j < nodes && 0 <= i0 + 1 + j - (nodes as int) / 2 < m ==> #[trigger] r@[j] as int
                == i0 + 1 + j - (nodes as int) / 2,
        nodes % 2 == 0 && 2 <= nodes && 0 <= i0 < m ==> r@[(nodes as int) / 2 - 1] == i0,
        nodes % 2 == 0 && 2 <= nodes && 0 <= i0 + 1 < m ==> r@[(nodes as int) / 2] == i0 + 1,
{
    let half: isize = (nodes / 2) as isize;
    assert(half as int == (nodes as int) / 2);
    let first: isize = i0 - half + 1;
    let last: isize = (m - 1) as isize;
    let mut cells: Vec<usize> = Vec::new();
    let mut j: usize = 0;
    while j < nodes
        invariant
            j <= nodes,
            1 <= m <= isize::MAX,
            nodes <= isize::MAX,
            isize::MIN + (nodes as int) <= i0 < isize::MAX - (nodes as int),
            half as int == (nodes as int) / 2,
            first as int == i0 - (nodes as int) / 2 + 1,
            last as int == m - 1,
            cells@.len() == j,
            forall|q: int|
                0 <= q < j ==> #[trigger] cells@[q] as int == spec_stencil_cell(
                    i0 as int,
                    nodes as nat,
                    q,
                    m as nat,
                ),
            forall|q: int| 0 <= q < j ==> cells@[q] < m,
        decreases nodes - j,
    {
        let c: isize = first + j as isize;
        let cell: usize = if c < 0 {
            0
        } else if c > last {
            m - 1
        } else {
            c as usize
        };
        cells.push(cell);
        j = j + 1;
    }
    cells
}

/// The stencil is centred on the position: with an even number of nodes,
/// nodes `nodes/2 - 1` and `nodes/2` are the cells `i0` and `i0 + 1` that
/// bracket it (when they lie in the grid), nodes inside the grid are
/// consecutive cells, and the first and last nodes are as far below `i0` as
/// above `i0 + 1`.
pub proof fn lemma_stencil_is_centred(i0: int, nodes: nat, m: nat)
    requires
        nodes % 2 == 0,
        2 <= nodes,
        m >= 1,
    ensures
        0 <= i0 < m ==> spec_stencil_cell(i0, nodes, (nodes as int) / 2 - 1, m) == i0,
        0 <= i0 + 1 < m ==> spec_stencil_cell(i0, nodes, (nodes as int) / 2, m) == i0 + 1,
        forall|j: int|
            0 <= j < nodes - 1 && 0 <= spec_stencil_cell(i0, nodes, j, m) && i0 + 1 + j
                - (nodes as int) / 2 >= 0 && i0 + 2 + j - (nodes as int) / 2 < m ==> #[trigger]
                spec_stencil_cell(i0, nodes, j + 1, m) == spec_stencil_cell(i0, nodes, j, m) + 1,
        (0 <= i0 + 1 - (nodes as int) / 2 && i0 + (nodes as int) / 2 < m) ==> spec_stencil_cell(
            i0,
            nodes,
            0,
            m,
        ) + spec_stencil_cell(i0, nodes, nodes - 1, m) == 2 * i0 + 1,
{
}

/// The target blocks `[b, min(b + bs, n))` for `b = start, start + bs, …`
/// below `n`.
pub open spec fn spec_blocks(start: nat, n: nat, bs: nat) -> Seq<(usize, usize)>
    decreases (if start < n { n - start } else { 0 }),
    when bs > 0
{
    if start >= n {
        Seq::empty()
    } else {
        let end: nat = if start + bs < n { start + bs } else { n };
        seq![(start as usize, end as usize)] + spec_blocks(start + bs, n, bs)
    }
}

/// The blocks from `start` tile `start..n`: each is non-empty and at most
/// `bs` long, each ends where the next begins, the first begins at `start`,
/// the last ends at `n`, and all but the last are exactly `bs` long.
pub proof fn lemma_blocks_tile(start: nat, n: nat, bs: nat)
    requires
        bs > 0,
        n <= usize::MAX,
    ensures
        start < n ==> spec_blocks(start, n, bs).len() > 0 && spec_blocks(start, n, bs)[0].0
            == start && spec_blocks(start, n, bs).last().1 == n,
        start >= n ==> spec_blocks(start, n, bs).len() == 0,
        forall|k: int|
            0 <= k < spec_blocks(start, n, bs).len() ==> (#[trigger] spec_blocks(start, n, bs)[k]).0
                < spec_blocks(start, n, bs)[k].1 <= spec_blocks(start, n, bs)[k].0 + bs,
        forall|k: int|
            0 <= k < spec_blocks(start, n, bs).len() - 1 ==> (#[trigger] spec_blocks(
                start,
                n,
                bs,
            )[k]).1 == spec_blocks(start, n, bs)[k + 1].0 && spec_blocks(start, n, bs)[k].1
                == spec_blocks(start, n, bs)[k].0 + bs,
    decreases (if start < n { n - start } else { 0 }),
{
    if start < n {
        lemma_blocks_tile(start + bs, n, bs);
        let s = spec_blocks(start, n, bs);
        let t = spec_blocks(start + bs, n, bs);
        let end: nat = if start + bs < n { start + bs } else { n };
        assert(s == seq![(start as usize, end as usize)] + t);
        assert forall|k: int| 0 <= k < s.len() - 1 implies (#[trigger] s[k]).1 == s[k + 1].0
            && s[k].1 == s[k].0 + bs by {
            if k == 0 {
                assert(s[1] == t[0]);
            } else {
                assert(s[k] == t[k - 1] && s[k + 1] == t[k]);
            }
        }
        assert forall|k: int| 0 <= k < s.len() implies (#[trigger] s[k]).0 < s[k].1 <= s[k].0
            + bs by {
            if k > 0 {
                assert(s[k] == t[k - 1]);
            }
        }
        if start + bs < n {
            assert(t.len() > 0);
            assert(s.last() == t.last());
        }
    }
}

/// The target blocks of a span of `n` outputs swept by the tiled kernel:
/// `[0, bs)`, `[bs, 2·bs)`, … up to `n`, the last one cut short at `n`.
pub fn block_ranges(n: usize, bs: usize) -> (r: Vec<(usize, usize)>)
    requires
        bs > 0,
        n + bs <= usize::MAX,
    ensures
        r@ == spec_blocks(0, n as nat, bs as nat),
        n > 0 ==> r@.len() > 0 && r@[0].0 == 0 && r@.last().1 == n,
        n == 0 ==> r@.len() == 0,
        forall|k: int| 0 <= k < r@.len() ==> (#[trigger] r@[k]).0 < r@[k].1 <= r@[k].0 + bs,
        forall|k: int|
            0 <= k < r@.len() - 1 ==> (#[trigger] r@[k]).1 == r@[k + 1].0 && r@[k].1 == r@[k].0
                + bs,
{
    let mut out: Vec<(usize, usize)> = Vec::new();
    let mut b: usize = 0;
    proof {
        lemma_blocks_tile(0, n as nat, bs as nat);
    }
    let ghost whole = spec_blocks(0, n as nat, bs as nat);
    while b < n
        invariant
            bs > 0,
            n + bs <= usize::MAX,
            b <= n + bs,
            out@ + spec_blocks(b as nat, n as nat, bs as nat) == whole,
        decreases n + bs - b,
    {
        let ghost before = out@;
        let bend = if b + bs < n {
            b + bs
        } else {
            n
        };
        out.push((b, bend));
        proof {
            assert(before + spec_blocks(b as nat, n as nat, bs as nat) =~= out@ + spec_blocks(
                (b + bs) as nat,
                n as nat,
                bs as nat,
            ));
        }
        b = b + bs;
    }
    assert(out@ =~= whole);
    out
}

/// Outputs per parallel span of the tiled kernel: whole blocks of `bs`,
/// enough of them that the `ceil(p / bs)` blocks make about four spans per
/// worker (`threads`, at least one), and at least one block.
pub open spec fn spec_span_len(p: nat, bs: nat, threads: nat) -> nat {
    let blocks = if p % bs == 0 { p / bs } else { p / bs + 1 };
    let shares = 4 * (if threads == 0 { 1 } else { threads });
    let per = if blocks % shares == 0 { blocks / shares } else { blocks / shares + 1 };
    bs * (if per == 0 { 1 } else { per })
}

/// The output span each worker of the parallel tiled kernel takes at once;
/// spans start on block boundaries and are never shorter than one block.
pub fn parallel_span_len(p: usize, bs: usize, threads: usize) -> (r: usize)
    requires
        bs > 0,
        p + bs <= usize::MAX,
        threads <= usize::MAX / 4,
    ensures
        r == spec_span_len(p as nat, bs as nat, threads as nat),
        r % bs == 0,
        bs <= r,
{
    let blocks = if p % bs == 0 {
        p / bs
    } else {
        p / bs + 1
    };
    let workers = if threads == 0 {
        1
    } else {
        threads
    };
    let shares = 4 * workers;
    let per0 = if blocks % shares == 0 {
        blocks / shares
    } else {
        blocks / shares + 1
    };
    let per = if per0 == 0 {
        1
    } else {
        per0
    };
    proof {
        vstd::arithmetic::div_mod::lemma_fundamental_div_mod(p as int, bs as int);
        vstd::arithmetic::div_mod::lemma_div_nonincreasing(blocks as int, shares as int);
        if blocks > 0 && shares > 1 {
            vstd::arithmetic::div_mod::lemma_div_decreases(blocks as int, shares as int);
        }
        assert(per <= blocks || per == 1);
        assert(bs * blocks <= p + bs) by (nonlinear_arith)
            requires
                p == bs * (p / bs) + p % bs,
                p % bs < bs,
                blocks as int == (if p % bs == 0 { (p / bs) as int } else { p / bs + 1 }),
        ;
        if per <= blocks {
            assert(bs * per <= bs * blocks) by (nonlinear_arith)
                requires
                    per <= blocks,
            ;
        }
    }
    let r = bs * per;
    assert(r % bs == 0) by (nonlinear_arith)
        requires
            r == bs * per,
            bs > 0,
    {
        vstd::arithmetic::div_mod::lemma_mod_multiples_basic(per as int, bs as int);
    }
    assert(bs <= r) by (nonlinear_arith)
        requires
            r == bs * per,
            per >= 1,
    ;
    r
}

/// Output block size of the 2D-tiled kernel for problem size `p`: 32 while
/// the output fits in cache regardless (`p ≤ 256`), 8 beyond.
pub fn auto_tiled_block_size(p: usize) -> (r: usize)
    ensures
        r == (if p <= 256 { 32usize } else { 8usize }),
{
    if p <= 256 {
        32
    } else {
        8
    }
}

} // verus!
