//! Method and execution-mode selection for the Stieltjes-transform kernels.
//!
//! Everything here is exact decision logic: which kernel a request resolves
//! to, how the presets rewrite a configuration, and the names under which the
//! methods are known to callers.
use vstd::prelude::*;

use crate::pareto::{
    lemma_pareto_pick_concrete, lemma_speed_column_is_chebcode_fast, pareto_pick, spec_pareto_pick,
};
use crate::text::str_equal;

verus! {

/// Method for computing the Stieltjes transform.
///
/// Families, in rough accuracy order: exact O(p²) kernels (`Blocked*`), FFT
/// grids (`Fft5`/`Fft3`/`Fft2`, `Adaptive`, `Ewald`, `Dst`), treecodes
/// (`TreeCode`, the `ChebCode*` presets), `Hodlr`, and the meta methods
/// `Auto`, `SpeedAuto`, `AccuracyAuto` that resolve to a concrete method
/// before dispatch.
#[derive(Debug, Clone, Copy, PartialEq, Eq, Structural)]
pub enum StieltjesMethod {
    /// O(p²) naive scalar loop.
    Naive,
    /// O(p²) auto-vectorized loop.
    AutoVectorized,
    /// O(p²) cache-blocked + loop-unrolled + FMA + far-field cutoff.
    Blocked,
    /// O(p²) cache-blocked + auto-vectorized.
    BlockedAutoVec,
    /// O(p²) 2D-tiled cache-blocked.
    BlockedTiled,
    /// O(p·k) cache-blocked + binary-search far-field window.
    BlockedWindowed,
    /// Exact blocked real part, windowed imaginary part.
    BlockedHybrid,
    /// Real part via FFT odd kernel, imaginary part via the windowed method.
    Adaptive,
    /// O(p log p) FFT grid convolution (5 FFTs).
    Fft5,
    /// O(p log p) fused FFT grid convolution (3 FFTs).
    Fft3,
    /// O(p log p) 2-FFT grid convolution.
    Fft2,
    /// O(p log p) 1D tree code.
    TreeCode,
    /// O(p log p) Chebyshev-interpolation treecode.
    ChebCode,
    /// Speed-tuned ChebCode preset.
    ChebCodeFast,
    /// Precision-tuned ChebCode preset.
    ChebCodeXtreme,
    /// Middle ChebCode preset.
    ChebCodeBalanced,
    /// Ewald near/far splitting.
    Ewald,
    /// DST-I real part.
    Dst,
    /// Size-aware speed policy (same as `SpeedAuto`).
    Auto,
    /// Hierarchical low-rank summation.
    Hodlr,
    /// Fastest method of the Pareto table under the error cap.
    SpeedAuto,
    /// Lowest-error method of the Pareto table, ties broken by runtime.
    AccuracyAuto,
}

/// The name under which a method is known to callers.
pub open spec fn spec_method_name(m: StieltjesMethod) -> Seq<char> {
    match m {
        StieltjesMethod::Naive => "naive"@,
        StieltjesMethod::AutoVectorized => "autovec"@,
        StieltjesMethod::Blocked => "blocked"@,
        StieltjesMethod::BlockedAutoVec => "blocked_autovec"@,
        StieltjesMethod::BlockedTiled => "blocked_tiled"@,
        StieltjesMethod::BlockedWindowed => "blocked_windowed"@,
        StieltjesMethod::BlockedHybrid => "blocked_hybrid"@,
        StieltjesMethod::Adaptive => "adaptive"@,
        StieltjesMethod::Fft5 => "fft5"@,
        StieltjesMethod::Fft3 => "fft3"@,
        StieltjesMethod::Fft2 => "fft2"@,
        StieltjesMethod::TreeCode => "fmm"@,
        StieltjesMethod::ChebCode => "chebcode"@,
        StieltjesMethod::ChebCodeFast => "chebcode_fast"@,
        StieltjesMethod::ChebCodeXtreme => "chebcode_xtreme"@,
        StieltjesMethod::ChebCodeBalanced => "chebcode_balanced"@,
        StieltjesMethod::Ewald => "ewald"@,
        StieltjesMethod::Dst => "dst"@,
        StieltjesMethod::Auto => "auto"@,
        StieltjesMethod::Hodlr => "hodlr"@,
        StieltjesMethod::SpeedAuto => "speed_auto"@,
        StieltjesMethod::AccuracyAuto => "accuracy_auto"@,
    }
}

/// The one-line description of a method.
pub open spec fn spec_method_description(m: StieltjesMethod) -> Seq<char> {
    match m {
        StieltjesMethod::Naive => "O(p²) scalar loop"@,
        StieltjesMethod::AutoVectorized => "O(p²) auto-vectorized loop"@,
        StieltjesMethod::Blocked => "O(p²) cache-blocked + unrolled + FMA"@,
        StieltjesMethod::BlockedAutoVec => "O(p²) cache-blocked + auto-vectorized"@,
        StieltjesMethod::BlockedTiled => "O(p²) 2D-tiled cache-blocked"@,
        StieltjesMethod::BlockedWindowed => "O(p·k) cache-blocked + binary-search window"@,
        StieltjesMethod::BlockedHybrid => "exact real(blocked) + windowed imag"@,
        StieltjesMethod::Adaptive => "balanced real(FFT)+imag(windowed)"@,
        StieltjesMethod::Fft5 => "O(p log p) FFT-grid convolution (5 FFTs)"@,
        StieltjesMethod::Fft3 => "O(p log p) fused FFT grid (3 FFTs)"@,
        StieltjesMethod::Fft2 => "O(p log p) 2-FFT grid (packed real + Hilbert)"@,
        StieltjesMethod::TreeCode => "O(p log p) 1D tree code (FMM)"@,
        StieltjesMethod::ChebCode => "O(p log p) Chebyshev-interpolation treecode"@,
        StieltjesMethod::ChebCodeFast => "ChebCode speed preset (theta 1.0, n 8, leaf 32, f32 far field)"@,
        StieltjesMethod::ChebCodeXtreme => "ChebCode precision preset (theta .25, n 11, leaf 16)"@,
        StieltjesMethod::ChebCodeBalanced => "ChebCode balanced preset (theta .55, n 11, leaf 32)"@,
        StieltjesMethod::Ewald => "O(p·k+M log M) Ewald near/far splitting"@,
        StieltjesMethod::Dst => "O(p log p) DST-I real part (odd-extension)"@,
        StieltjesMethod::Auto => "Auto-select based on problem size"@,
        StieltjesMethod::Hodlr => "O(p·r·log p) hierarchical low-rank (ACA) sums"@,
        StieltjesMethod::SpeedAuto => "Data-driven max-speed pick from the measured Pareto table"@,
        StieltjesMethod::AccuracyAuto => "Accuracy-first: exact O(p²) when cheap, ChebCode beyond"@,
    }
}

impl StieltjesMethod {
    /// Short machine-friendly name of the method.
    pub fn name(&self) -> (r: &'static str)
        ensures
            r@ == spec_method_name(*self),
    {
        match self {
            Self::Naive => "naive",
            Self::AutoVectorized => "autovec",
            Self::Blocked => "blocked",
            Self::BlockedAutoVec => "blocked_autovec",
            Self::BlockedTiled => "blocked_tiled",
            Self::BlockedWindowed => "blocked_windowed",
            Self::BlockedHybrid => "blocked_hybrid",
            Self::Adaptive => "adaptive",
            Self::Fft5 => "fft5",
            Self::Fft3 => "fft3",
            Self::Fft2 => "fft2",
            Self::TreeCode => "fmm",
            Self::ChebCode => "chebcode",
            Self::ChebCodeFast => "chebcode_fast",
            Self::ChebCodeXtreme => "chebcode_xtreme",
            Self::ChebCodeBalanced => "chebcode_balanced",
            Self::Ewald => "ewald",
            Self::Dst => "dst",
            Self::Auto => "auto",
            Self::Hodlr => "hodlr",
            Self::SpeedAuto => "speed_auto",
            Self::AccuracyAuto => "accuracy_auto",
        }
    }

    /// One-line description of the method.
    pub fn description(&self) -> (r: &'static str)
        ensures
            r@ == spec_method_description(*self),
    {
        match self {
            Self::Naive => "O(p²) scalar loop",
            Self::AutoVectorized => "O(p²) auto-vectorized loop",
            Self::Blocked => "O(p²) cache-blocked + unrolled + FMA",
            Self::BlockedAutoVec => "O(p²) cache-blocked + auto-vectorized",
            Self::BlockedTiled => "O(p²) 2D-tiled cache-blocked",
            Self::BlockedWindowed => "O(p·k) cache-blocked + binary-search window",
            Self::BlockedHybrid => "exact real(blocked) + windowed imag",
            Self::Adaptive => "balanced real(FFT)+imag(windowed)",
            Self::Fft5 => "O(p log p) FFT-grid convolution (5 FFTs)",
            Self::Fft3 => "O(p log p) fused FFT grid (3 FFTs)",
            Self::Fft2 => "O(p log p) 2-FFT grid (packed real + Hilbert)",
            Self::TreeCode => "O(p log p) 1D tree code (FMM)",
            Self::ChebCode => "O(p log p) Chebyshev-interpolation treecode",
            Self::ChebCodeFast => "ChebCode speed preset (theta 1.0, n 8, leaf 32, f32 far field)",
            Self::ChebCodeXtreme => "ChebCode precision preset (theta .25, n 11, leaf 16)",
            Self::ChebCodeBalanced => "ChebCode balanced preset (theta .55, n 11, leaf 32)",
            Self::Ewald => "O(p·k+M log M) Ewald near/far splitting",
            Self::Dst => "O(p log p) DST-I real part (odd-extension)",
            Self::Auto => "Auto-select based on problem size",
            Self::Hodlr => "O(p·r·log p) hierarchical low-rank (ACA) sums",
            Self::SpeedAuto => "Data-driven max-speed pick from the measured Pareto table",
            Self::AccuracyAuto => "Accuracy-first: exact O(p²) when cheap, ChebCode beyond",
        }
    }

    /// Every non-auto, non-`Hodlr` variant, for exhaustive benchmarking.
    ///
    /// `Hodlr` is left out because it has its own accuracy knobs rather than
    /// a place on the size/accuracy frontier; the meta methods are left out
    /// because they resolve to another entry.
    pub fn all() -> (r: &'static [Self])
        ensures
            r@ == spec_all_methods(),
    {
        let r: &'static [Self] = &[
            Self::Naive,
            Self::AutoVectorized,
            Self::Blocked,
            Self::BlockedAutoVec,
            Self::BlockedTiled,
            Self::BlockedWindowed,
            Self::BlockedHybrid,
            Self::Adaptive,
            Self::Fft5,
            Self::Fft3,
            Self::Fft2,
            Self::TreeCode,
            Self::ChebCode,
            Self::ChebCodeFast,
            Self::ChebCodeXtreme,
            Self::ChebCodeBalanced,
            Self::Ewald,
            Self::Dst,
        ];
        assert(r@ =~= spec_all_methods());
        r
    }

    /// Select a method for problem size `p` and a parallelism: the speed
    /// policy of the Pareto table, the same pick as `Auto` and `SpeedAuto`.
    pub fn resolve(p: usize, parallelism: Parallelism) -> (r: Self)
        ensures
            r == spec_pareto_pick(true, parallelism == Parallelism::Parallel, p),
            r == StieltjesMethod::ChebCodeFast,
    {
        let parallel = match parallelism {
            Parallelism::Parallel => true,
            _ => false,
        };
        pareto_pick(true, parallel, p)
    }
}

/// The benchmarking list of concrete frontier methods, in declaration order.
pub open spec fn spec_all_methods() -> Seq<StieltjesMethod> {
    seq![
        StieltjesMethod::Naive,
        StieltjesMethod::AutoVectorized,
        StieltjesMethod::Blocked,
        StieltjesMethod::BlockedAutoVec,
        StieltjesMethod::BlockedTiled,
        StieltjesMethod::BlockedWindowed,
        StieltjesMethod::BlockedHybrid,
        StieltjesMethod::Adaptive,
        StieltjesMethod::Fft5,
        StieltjesMethod::Fft3,
        StieltjesMethod::Fft2,
        StieltjesMethod::TreeCode,
        StieltjesMethod::ChebCode,
        StieltjesMethod::ChebCodeFast,
        StieltjesMethod::ChebCodeXtreme,
        StieltjesMethod::ChebCodeBalanced,
        StieltjesMethod::Ewald,
        StieltjesMethod::Dst,
    ]
}

/// Parallelism strategy.
#[derive(Debug, Clone, Copy, PartialEq, Eq, Structural)]
pub enum Parallelism {
    /// Single-threaded execution.
    Sequential,
    /// Multi-threaded execution (data-parallel over eigenvalues).
    Parallel,
    /// Decided from the problem size and method.
    Auto,
}

/// The name under which a parallelism mode is known to callers.
pub open spec fn spec_parallelism_name(p: Parallelism) -> Seq<char> {
    match p {
        Parallelism::Sequential => "seq"@,
        Parallelism::Parallel => "parallel"@,
        Parallelism::Auto => "auto"@,
    }
}

impl Parallelism {
    /// Short machine-friendly name of the mode.
    pub fn name(&self) -> (r: &'static str)
        ensures
            r@ == spec_parallelism_name(*self),
    {
        match self {
            Self::Sequential => "seq",
            Self::Parallel => "parallel",
            Self::Auto => "auto",
        }
    }

    /// Every mode.
    pub fn all() -> (r: &'static [Self])
        ensures
            r@ == seq![Parallelism::Sequential, Parallelism::Parallel, Parallelism::Auto],
    {
        let r: &'static [Self] = &[Self::Sequential, Self::Parallel, Self::Auto];
        assert(r@ =~= seq![Parallelism::Sequential, Parallelism::Parallel, Parallelism::Auto]);
        r
    }

    /// Resolve `Auto` parallelism: always single-threaded, so that no call
    /// takes every core of the machine unless the caller opts in.
    pub fn resolve(_p: usize, _method: StieltjesMethod) -> (r: Self)
        ensures
            r == Parallelism::Sequential,
    {
        Self::Sequential
    }
}

/// Map the caller's `parallel` switch onto an execution mode: no choice lets
/// the library decide, `false` forces one thread, `true` forces many.
pub fn parse_parallel(parallel: Option<bool>) -> (r: Parallelism)
    ensures
        r == match parallel {
            None => Parallelism::Auto,
            Some(false) => Parallelism::Sequential,
            Some(true) => Parallelism::Parallel,
        },
{
    match parallel {
        None => Parallelism::Auto,
        Some(false) => Parallelism::Sequential,
        Some(true) => Parallelism::Parallel,
    }
}

/// FFT grid sizing strategy.
#[derive(Debug, Clone, Copy, PartialEq, Eq, Structural)]
pub enum FftGridSize {
    /// The kernel picks the grid.
    Auto,
    /// Explicit number of grid points.
    Custom(usize),
}

impl FftGridSize {
    /// The explicit grid point count, or `None` when the kernel picks.
    pub fn grid_points(self) -> (r: Option<usize>)
        ensures
            r == match self {
                FftGridSize::Auto => None::<usize>,
                FftGridSize::Custom(n) => Some(n),
            },
    {
        match self {
            Self::Auto => None,
            Self::Custom(n) => Some(n),
        }
    }
}

/// Numeric precision for the Stieltjes kernel.
#[derive(Debug, Clone, Copy, PartialEq, Eq, Structural)]
pub enum Precision {
    /// Double precision, exact to machine precision; the default.
    Float64,
    /// Single precision, about twice as fast with about 1e-2 relative error.
    Float32,
}

impl Default for Precision {
    fn default() -> (r: Self)
        ensures
            r == Precision::Float64,
    {
        Precision::Float64
    }
}

/// Is `method` one of the three unresolved auto presets?
pub open spec fn spec_is_auto(method: StieltjesMethod) -> bool {
    method == StieltjesMethod::Auto || method == StieltjesMethod::SpeedAuto
        || method == StieltjesMethod::AccuracyAuto
}

/// Is `method` one of the three unresolved auto presets?
pub fn is_auto(method: StieltjesMethod) -> (r: bool)
    ensures
        r == spec_is_auto(method),
{
    match method {
        StieltjesMethod::Auto | StieltjesMethod::SpeedAuto | StieltjesMethod::AccuracyAuto => true,
        _ => false,
    }
}

/// Resolution of an auto preset for the all-points problem.
pub open spec fn spec_resolve_auto_method(
    method: StieltjesMethod,
    parallel: bool,
    p: usize,
) -> StieltjesMethod {
    match method {
        StieltjesMethod::Auto | StieltjesMethod::SpeedAuto => spec_pareto_pick(true, parallel, p),
        StieltjesMethod::AccuracyAuto => spec_pareto_pick(false, parallel, p),
        concrete => concrete,
    }
}

/// Resolve an auto preset to a concrete method for the all-points problem
/// (as many query points as eigenvalues).
///
/// `Auto` and `SpeedAuto` are one policy, the fastest method whose measured
/// error stays under the cap; `AccuracyAuto` is the lowest-error one with
/// ties broken by runtime. A concrete method is returned unchanged.
pub fn resolve_auto_method(method: StieltjesMethod, parallel: bool, p: usize) -> (r:
    StieltjesMethod)
    ensures
        r == spec_resolve_auto_method(method, parallel, p),
{
    match method {
        StieltjesMethod::Auto | StieltjesMethod::SpeedAuto => pareto_pick(true, parallel, p),
        StieltjesMethod::AccuracyAuto => pareto_pick(false, parallel, p),
        concrete => concrete,
    }
}

/// Does this method pay for a whole uniform grid whatever the query count?
pub open spec fn spec_is_whole_grid(method: StieltjesMethod) -> bool {
    method == StieltjesMethod::Fft5 || method == StieltjesMethod::Fft3 || method
        == StieltjesMethod::Fft2 || method == StieltjesMethod::Adaptive || method
        == StieltjesMethod::Dst
}

/// The grid-aware redirection of a resolved method.
pub open spec fn spec_grid_appropriate(method: StieltjesMethod, p: usize, nq: usize) -> StieltjesMethod {
    if nq * 4 >= p {
        method
    } else if spec_is_whole_grid(method) {
        StieltjesMethod::ChebCodeFast
    } else {
        method
    }
}

/// Redirect a resolved method that pays for the whole grid to the treecode
/// speed preset when only a few query points are needed (`4·nq < p`).
pub fn grid_appropriate(method: StieltjesMethod, p: usize, nq: usize) -> (r: StieltjesMethod)
    ensures
        r == spec_grid_appropriate(method, p, nq),
{
    if nq > usize::MAX / 4 || nq * 4 >= p {
        return method;
    }
    match method {
        StieltjesMethod::Fft5
        | StieltjesMethod::Fft3
        | StieltjesMethod::Fft2
        | StieltjesMethod::Adaptive
        | StieltjesMethod::Dst => StieltjesMethod::ChebCodeFast,
        concrete => concrete,
    }
}

/// The kernel choice of a configuration: which Stieltjes method runs, and how
/// many threads it may use. The two `Auto` sentinels are resolved only once a
/// problem size is known.
#[derive(Debug, Clone, Copy, PartialEq, Eq, Structural)]
pub struct KernelChoice {
    /// Stieltjes transform method.
    pub stieltjes_method: StieltjesMethod,
    /// Parallelism strategy.
    pub parallelism: Parallelism,
}

/// Resolution of a kernel choice for the all-points problem.
pub open spec fn spec_resolve_auto(k: KernelChoice, p: usize) -> KernelChoice {
    let par = if k.parallelism == Parallelism::Auto {
        Parallelism::Sequential
    } else {
        k.parallelism
    };
    KernelChoice {
        stieltjes_method: spec_resolve_auto_method(
            k.stieltjes_method,
            par == Parallelism::Parallel,
            p,
        ),
        parallelism: par,
    }
}

/// Resolution of a kernel choice for `nq` query points.
pub open spec fn spec_resolve_auto_at_points(k: KernelChoice, p: usize, nq: usize) -> KernelChoice {
    let r = spec_resolve_auto(k, p);
    if spec_is_auto(k.stieltjes_method) {
        KernelChoice {
            stieltjes_method: spec_grid_appropriate(r.stieltjes_method, p, nq),
            ..r
        }
    } else {
        r
    }
}

/// The label of a kernel choice: `st=<method>,par=<parallelism>`.
pub open spec fn spec_label(k: KernelChoice) -> Seq<char> {
    "st="@ + spec_method_name(k.stieltjes_method) + ",par="@ + spec_parallelism_name(k.parallelism)
}

impl KernelChoice {
    /// The default choice: the exact `Blocked` kernel on one thread.
    pub fn new() -> (r: Self)
        ensures
            r.stieltjes_method == StieltjesMethod::Blocked,
            r.parallelism == Parallelism::Sequential,
    {
        KernelChoice {
            stieltjes_method: StieltjesMethod::Blocked,
            parallelism: Parallelism::Sequential,
        }
    }

    /// Resolve the `Auto` sentinels for problem size `p`: parallelism first,
    /// then the method, which depends on the resolved parallelism.
    pub fn resolve_auto(&self, p: usize) -> (r: Self)
        ensures
            r == spec_resolve_auto(*self, p),
    {
        let mut resolved = *self;
        if resolved.parallelism == Parallelism::Auto {
            resolved.parallelism = Parallelism::resolve(p, resolved.stieltjes_method);
        }
        let parallel = resolved.parallelism == Parallelism::Parallel;
        resolved.stieltjes_method = resolve_auto_method(resolved.stieltjes_method, parallel, p);
        resolved
    }

    /// [`Self::resolve_auto`] for evaluation at `nq` arbitrary query points:
    /// an auto preset that resolved to a whole-grid method is redirected to
    /// the treecode speed preset when the query count is small. An explicit
    /// method is always honoured as given.
    pub fn resolve_auto_at_points(&self, p: usize, nq: usize) -> (r: Self)
        ensures
            r == spec_resolve_auto_at_points(*self, p, nq),
    {
        if !is_auto(self.stieltjes_method) {
            return self.resolve_auto(p);
        }
        let resolved = self.resolve_auto(p);
        KernelChoice {
            stieltjes_method: grid_appropriate(resolved.stieltjes_method, p, nq),
            ..resolved
        }
    }

    /// Human-readable label, `st=<method>,par=<parallelism>`.
    pub fn label(&self) -> (r: String)
        ensures
            r@ == spec_label(*self),
    {
        let mut s = String::from_str("st=");
        s.append(self.stieltjes_method.name());
        s.append(",par=");
        s.append(self.parallelism.name());
        s
    }
}

/// The method a caller-facing name denotes, if any.
pub open spec fn spec_parse_method(s: Seq<char>) -> Option<StieltjesMethod> {
    if s == "naive"@ {
        Some(StieltjesMethod::Naive)
    } else if s == "autovec"@ {
        Some(StieltjesMethod::AutoVectorized)
    } else if s == "blocked"@ {
        Some(StieltjesMethod::Blocked)
    } else if s == "blocked_autovec"@ {
        Some(StieltjesMethod::BlockedAutoVec)
    } else if s == "blocked_tiled"@ {
        Some(StieltjesMethod::BlockedTiled)
    } else if s == "blocked_windowed"@ {
        Some(StieltjesMethod::BlockedWindowed)
    } else if s == "blocked_hybrid"@ {
        Some(StieltjesMethod::BlockedHybrid)
    } else if s == "adaptive"@ {
        Some(StieltjesMethod::Adaptive)
    } else if s == "fft5"@ {
        Some(StieltjesMethod::Fft5)
    } else if s == "fft3"@ {
        Some(StieltjesMethod::Fft3)
    } else if s == "fft2"@ {
        Some(StieltjesMethod::Fft2)
    } else if s == "fmm"@ || s == "treecode"@ {
        Some(StieltjesMethod::TreeCode)
    } else if s == "chebcode"@ || s == "chebyshev"@ {
        Some(StieltjesMethod::ChebCode)
    } else if s == "chebcode_fast"@ || s == "chebf"@ {
        Some(StieltjesMethod::ChebCodeFast)
    } else if s == "chebcode_xtreme"@ || s == "chebx"@ {
        Some(StieltjesMethod::ChebCodeXtreme)
    } else if s == "ewald"@ {
        Some(StieltjesMethod::Ewald)
    } else if s == "dst"@ {
        Some(StieltjesMethod::Dst)
    } else if s == "auto"@ {
        Some(StieltjesMethod::Auto)
    } else if s == "hodlr"@ {
        Some(StieltjesMethod::Hodlr)
    } else if s == "speed_auto"@ || s == "speed"@ {
        Some(StieltjesMethod::SpeedAuto)
    } else if s == "accuracy_auto"@ || s == "accuracy"@ {
        Some(StieltjesMethod::AccuracyAuto)
    } else {
        None
    }
}

/// Parse a caller-facing method name (exact, case-sensitive). Besides each
/// method's own name, a few aliases are accepted (`treecode`, `chebyshev`,
/// `chebf`, `chebx`, `speed`, `accuracy`); `None` for any other text.
pub fn parse_method(method: &str) -> (r: Option<StieltjesMethod>)
    ensures
        r == spec_parse_method(method@),
{
    if str_equal(method, "naive") {
        Some(StieltjesMethod::Naive)
    } else if str_equal(method, "autovec") {
        Some(StieltjesMethod::AutoVectorized)
    } else if str_equal(method, "blocked") {
        Some(StieltjesMethod::Blocked)
    } else if str_equal(method, "blocked_autovec") {
        Some(StieltjesMethod::BlockedAutoVec)
    } else if str_equal(method, "blocked_tiled") {
        Some(StieltjesMethod::BlockedTiled)
    } else if str_equal(method, "blocked_windowed") {
        Some(StieltjesMethod::BlockedWindowed)
    } else if str_equal(method, "blocked_hybrid") {
        Some(StieltjesMethod::BlockedHybrid)
    } else if str_equal(method, "adaptive") {
        Some(StieltjesMethod::Adaptive)
    } else if str_equal(method, "fft5") {
        Some(StieltjesMethod::Fft5)
    } else if str_equal(method, "fft3") {
        Some(StieltjesMethod::Fft3)
    } else if str_equal(method, "fft2") {
        Some(StieltjesMethod::Fft2)
    } else if str_equal(method, "fmm") || str_equal(method, "treecode") {
        Some(StieltjesMethod::TreeCode)
    } else if str_equal(method, "chebcode") || str_equal(method, "chebyshev") {
        Some(StieltjesMethod::ChebCode)
    } else if str_equal(method, "chebcode_fast") || str_equal(method, "chebf") {
        Some(StieltjesMethod::ChebCodeFast)
    } else if str_equal(method, "chebcode_xtreme") || str_equal(method, "chebx") {
        Some(StieltjesMethod::ChebCodeXtreme)
    } else if str_equal(method, "ewald") {
        Some(StieltjesMethod::Ewald)
    } else if str_equal(method, "dst") {
        Some(StieltjesMethod::Dst)
    } else if str_equal(method, "auto") {
        Some(StieltjesMethod::Auto)
    } else if str_equal(method, "hodlr") {
        Some(StieltjesMethod::Hodlr)
    } else if str_equal(method, "speed_auto") || str_equal(method, "speed") {
        Some(StieltjesMethod::SpeedAuto)
    } else if str_equal(method, "accuracy_auto") || str_equal(method, "accuracy") {
        Some(StieltjesMethod::AccuracyAuto)
    } else {
        None
    }
}

/// Block size of the cache-blocked kernels in a default configuration.
pub const DEFAULT_BLOCK_SIZE: usize = 64;

/// Configuration presets between the default and a fully manual setup. Each
/// sets the method, the far-field cutoff and the block size at once, and
/// none touches the parallelism.
#[derive(Debug, Clone, Copy, PartialEq, Eq, Structural)]
pub enum Strategy {
    /// Balanced default: the same settings as a default configuration (the
    /// exact `Blocked` kernel, no cutoff, block size [`DEFAULT_BLOCK_SIZE`]).
    Default,
    /// Maximise speed: the speed preset and a far-field cutoff.
    Speed,
    /// Maximise accuracy: the accuracy preset, no cutoff.
    Accuracy,
}

/// Far-field cutoff of the cache-blocked kernels: terms with
/// `|λᵢ − λⱼ| > ratio·η` are skipped.
///
/// The ratio is a caller-chosen `f64`; the library never computes with it,
/// it only stores, copies and compares it, so it holds the ratio as the IEEE
/// 754 bit pattern of that `f64` (what `f64::to_bits` gives).
#[derive(Debug, Clone, Copy, PartialEq, Eq, Structural)]
pub enum Cutoff {
    /// No cutoff: every term is summed.
    Disabled,
    /// Cutoff at the ratio whose `f64` bit pattern is `ratio_bits`.
    Enabled { ratio_bits: u64 },
}

/// Bit pattern of the `f64` ratio `10.0`, the cutoff of the speed preset.
pub const SPEED_CUTOFF_RATIO_BITS: u64 = 0x4024_0000_0000_0000;

/// The fields that a strategy preset writes into a configuration.
#[derive(Debug, Clone, Copy, PartialEq, Eq, Structural)]
pub struct StrategyPreset {
    /// The Stieltjes method the preset selects.
    pub stieltjes_method: StieltjesMethod,
    /// The cutoff the preset sets.
    pub cutoff: Cutoff,
    /// The new cache block size.
    pub block_size: usize,
}

/// The preset of each strategy.
pub open spec fn spec_strategy_preset(s: Strategy) -> StrategyPreset {
    match s {
        Strategy::Default => StrategyPreset {
            stieltjes_method: StieltjesMethod::Blocked,
            cutoff: Cutoff::Disabled,
            block_size: DEFAULT_BLOCK_SIZE,
        },
        Strategy::Speed => StrategyPreset {
            stieltjes_method: StieltjesMethod::SpeedAuto,
            cutoff: Cutoff::Enabled { ratio_bits: SPEED_CUTOFF_RATIO_BITS },
            block_size: 16,
        },
        Strategy::Accuracy => StrategyPreset {
            stieltjes_method: StieltjesMethod::AccuracyAuto,
            cutoff: Cutoff::Disabled,
            block_size: 32,
        },
    }
}

impl Strategy {
    /// The fields this strategy sets: `Default` restores the default
    /// configuration (the exact `Blocked` kernel, no cutoff, block size
    /// [`DEFAULT_BLOCK_SIZE`]); `Speed` picks the speed preset, a cutoff at
    /// ratio 10 and block size 16; `Accuracy` picks the accuracy preset, no
    /// cutoff and block size 32.
    pub fn preset(self) -> (r: StrategyPreset)
        ensures
            r == spec_strategy_preset(self),
    {
        match self {
            Strategy::Default => StrategyPreset {
                stieltjes_method: StieltjesMethod::Blocked,
                cutoff: Cutoff::Disabled,
                block_size: DEFAULT_BLOCK_SIZE,
            },
            Strategy::Speed => StrategyPreset {
                stieltjes_method: StieltjesMethod::SpeedAuto,
                cutoff: Cutoff::Enabled { ratio_bits: SPEED_CUTOFF_RATIO_BITS },
                block_size: 16,
            },
            Strategy::Accuracy => StrategyPreset {
                stieltjes_method: StieltjesMethod::AccuracyAuto,
                cutoff: Cutoff::Disabled,
                block_size: 32,
            },
        }
    }
}

/// The plain-valued settings of a configuration: everything but the
/// concentration ratio and the smoothing width, which are floating point.
#[derive(Debug, Clone, Copy, PartialEq, Eq, Structural)]
pub struct KernelSettings {
    /// Stieltjes transform method.
    pub stieltjes_method: StieltjesMethod,
    /// Parallelism strategy.
    pub parallelism: Parallelism,
    /// FFT grid sizing.
    pub fft_grid_size: FftGridSize,
    /// Cache block size of the blocked kernels.
    pub block_size: usize,
    /// Far-field cutoff.
    pub cutoff: Cutoff,
    /// Floating-point precision of the kernels.
    pub precision: Precision,
}

/// The settings of a default configuration: the exact `Blocked` kernel on
/// one thread, automatic grid, block size [`DEFAULT_BLOCK_SIZE`], no cutoff,
/// double precision.
pub open spec fn spec_default_settings() -> KernelSettings {
    KernelSettings {
        stieltjes_method: StieltjesMethod::Blocked,
        parallelism: Parallelism::Sequential,
        fft_grid_size: FftGridSize::Auto,
        block_size: DEFAULT_BLOCK_SIZE,
        cutoff: Cutoff::Disabled,
        precision: Precision::Float64,
    }
}

/// The settings after applying a strategy: its method, cutoff and block size
/// written, every other setting (the parallelism among them) as it was.
pub open spec fn spec_apply_strategy(st: Strategy, s: KernelSettings) -> KernelSettings {
    let p = spec_strategy_preset(st);
    KernelSettings {
        stieltjes_method: p.stieltjes_method,
        cutoff: p.cutoff,
        block_size: p.block_size,
        ..s
    }
}

/// The settings with their kernel choice resolved for size `p`; every other
/// setting as it was.
pub open spec fn spec_resolve_settings(s: KernelSettings, p: usize) -> KernelSettings {
    let k = spec_resolve_auto(spec_kernel_choice(s), p);
    KernelSettings { stieltjes_method: k.stieltjes_method, parallelism: k.parallelism, ..s }
}

/// The settings with their kernel choice resolved for `nq` query points;
/// every other setting as it was.
pub open spec fn spec_resolve_settings_at_points(
    s: KernelSettings,
    p: usize,
    nq: usize,
) -> KernelSettings {
    let k = spec_resolve_auto_at_points(spec_kernel_choice(s), p, nq);
    KernelSettings { stieltjes_method: k.stieltjes_method, parallelism: k.parallelism, ..s }
}

/// The kernel choice within a set of settings.
pub open spec fn spec_kernel_choice(s: KernelSettings) -> KernelChoice {
    KernelChoice { stieltjes_method: s.stieltjes_method, parallelism: s.parallelism }
}

impl KernelSettings {
    /// The settings of a default configuration.
    pub fn new() -> (r: Self)
        ensures
            r == spec_default_settings(),
    {
        KernelSettings {
            stieltjes_method: StieltjesMethod::Blocked,
            parallelism: Parallelism::Sequential,
            fft_grid_size: FftGridSize::Auto,
            block_size: DEFAULT_BLOCK_SIZE,
            cutoff: Cutoff::Disabled,
            precision: Precision::Float64,
        }
    }

    /// The settings of a fully naive configuration: the default settings with
    /// the scalar `Naive` kernel.
    pub fn fully_naive() -> (r: Self)
        ensures
            r == (KernelSettings { stieltjes_method: StieltjesMethod::Naive, ..spec_default_settings() }),
    {
        KernelSettings { stieltjes_method: StieltjesMethod::Naive, ..KernelSettings::new() }
    }

    /// The method and parallelism of these settings.
    pub fn kernel_choice(&self) -> (r: KernelChoice)
        ensures
            r == spec_kernel_choice(*self),
    {
        KernelChoice { stieltjes_method: self.stieltjes_method, parallelism: self.parallelism }
    }

    /// Resolve the `Auto` sentinels for problem size `p` (see
    /// [`KernelChoice::resolve_auto`]); every other setting is kept.
    pub fn resolve_auto(&self, p: usize) -> (r: Self)
        ensures
            r == spec_resolve_settings(*self, p),
    {
        let k = self.kernel_choice().resolve_auto(p);
        KernelSettings { stieltjes_method: k.stieltjes_method, parallelism: k.parallelism, ..*self }
    }

    /// Resolve the `Auto` sentinels for `nq` query points (see
    /// [`KernelChoice::resolve_auto_at_points`]); every other setting is kept.
    pub fn resolve_auto_at_points(&self, p: usize, nq: usize) -> (r: Self)
        ensures
            r == spec_resolve_settings_at_points(*self, p, nq),
    {
        let k = self.kernel_choice().resolve_auto_at_points(p, nq);
        KernelSettings { stieltjes_method: k.stieltjes_method, parallelism: k.parallelism, ..*self }
    }

    /// Human-readable label, `st=<method>,par=<parallelism>`.
    pub fn label(&self) -> (r: String)
        ensures
            r@ == spec_label(spec_kernel_choice(*self)),
    {
        self.kernel_choice().label()
    }
}

impl Strategy {
    /// Apply this strategy to a configuration's settings: write its method,
    /// cutoff and block size; every other setting, the caller's parallelism
    /// among them, is kept.
    pub fn apply(self, settings: &mut KernelSettings)
        ensures
            *final(settings) == spec_apply_strategy(self, *old(settings)),
    {
        let preset = self.preset();
        settings.stieltjes_method = preset.stieltjes_method;
        settings.cutoff = preset.cutoff;
        settings.block_size = preset.block_size;
    }
}

/// The `Default` strategy restores a default configuration whatever was
/// applied before: the settings of [`KernelSettings::new`], but for the
/// parallelism, which stays the caller's.
pub proof fn lemma_default_preset_is_default_configuration(s: KernelSettings)
    ensures
        spec_apply_strategy(Strategy::Default, s) == (KernelSettings {
            parallelism: s.parallelism,
            fft_grid_size: s.fft_grid_size,
            precision: s.precision,
            ..spec_default_settings()
        }),
        spec_apply_strategy(Strategy::Default, spec_default_settings()) == spec_default_settings(),
{
}

/// Every strategy keeps the caller's parallelism, and applying one twice is
/// the same as applying it once.
pub proof fn lemma_strategy_keeps_parallelism(st: Strategy, s: KernelSettings)
    ensures
        spec_apply_strategy(st, s).parallelism == s.parallelism,
        spec_apply_strategy(st, spec_apply_strategy(st, s)) == spec_apply_strategy(st, s),
{
}

/// Resolution touches only the kernel choice, settles it as
/// [`lemma_resolve_auto_settles`] says, and resolving again changes nothing.
pub proof fn lemma_resolve_settings_keeps_the_rest(s: KernelSettings, p: usize)
    ensures
        spec_resolve_settings(s, p).fft_grid_size == s.fft_grid_size,
        spec_resolve_settings(s, p).block_size == s.block_size,
        spec_resolve_settings(s, p).cutoff == s.cutoff,
        spec_resolve_settings(s, p).precision == s.precision,
        spec_kernel_choice(spec_resolve_settings(s, p)) == spec_resolve_auto(spec_kernel_choice(s), p),
        spec_resolve_settings(spec_resolve_settings(s, p), p) == spec_resolve_settings(s, p),
{
    lemma_resolve_auto_settles(spec_kernel_choice(s), p);
}

/// The caller-facing name of every method, and what every accepted spelling
/// parses to: each method's own name (all but `chebcode_balanced`, which the
/// parser does not accept) and the aliases `treecode`, `chebyshev`, `chebf`,
/// `chebx`, `speed` and `accuracy`.
pub proof fn lemma_method_name_table()
    ensures
        spec_method_name(StieltjesMethod::Naive) == "naive"@,
        spec_method_name(StieltjesMethod::AutoVectorized) == "autovec"@,
        spec_method_name(StieltjesMethod::Blocked) == "blocked"@,
        spec_method_name(StieltjesMethod::BlockedAutoVec) == "blocked_autovec"@,
        spec_method_name(StieltjesMethod::BlockedTiled) == "blocked_tiled"@,
        spec_method_name(StieltjesMethod::BlockedWindowed) == "blocked_windowed"@,
        spec_method_name(StieltjesMethod::BlockedHybrid) == "blocked_hybrid"@,
        spec_method_name(StieltjesMethod::Adaptive) == "adaptive"@,
        spec_method_name(StieltjesMethod::Fft5) == "fft5"@,
        spec_method_name(StieltjesMethod::Fft3) == "fft3"@,
        spec_method_name(StieltjesMethod::Fft2) == "fft2"@,
        spec_method_name(StieltjesMethod::TreeCode) == "fmm"@,
        spec_method_name(StieltjesMethod::ChebCode) == "chebcode"@,
        spec_method_name(StieltjesMethod::ChebCodeFast) == "chebcode_fast"@,
        spec_method_name(StieltjesMethod::ChebCodeXtreme) == "chebcode_xtreme"@,
        spec_method_name(StieltjesMethod::ChebCodeBalanced) == "chebcode_balanced"@,
        spec_method_name(StieltjesMethod::Ewald) == "ewald"@,
        spec_method_name(StieltjesMethod::Dst) == "dst"@,
        spec_method_name(StieltjesMethod::Auto) == "auto"@,
        spec_method_name(StieltjesMethod::Hodlr) == "hodlr"@,
        spec_method_name(StieltjesMethod::SpeedAuto) == "speed_auto"@,
        spec_method_name(StieltjesMethod::AccuracyAuto) == "accuracy_auto"@,
        spec_parse_method("naive"@) == Some(StieltjesMethod::Naive),
        spec_parse_method("autovec"@) == Some(StieltjesMethod::AutoVectorized),
        spec_parse_method("blocked"@) == Some(StieltjesMethod::Blocked),
        spec_parse_method("blocked_autovec"@) == Some(StieltjesMethod::BlockedAutoVec),
        spec_parse_method("blocked_tiled"@) == Some(StieltjesMethod::BlockedTiled),
        spec_parse_method("blocked_windowed"@) == Some(StieltjesMethod::BlockedWindowed),
        spec_parse_method("blocked_hybrid"@) == Some(StieltjesMethod::BlockedHybrid),
        spec_parse_method("adaptive"@) == Some(StieltjesMethod::Adaptive),
        spec_parse_method("fft5"@) == Some(StieltjesMethod::Fft5),
        spec_parse_method("fft3"@) == Some(StieltjesMethod::Fft3),
        spec_parse_method("fft2"@) == Some(StieltjesMethod::Fft2),
        spec_parse_method("fmm"@) == Some(StieltjesMethod::TreeCode),
        spec_parse_method("chebcode"@) == Some(StieltjesMethod::ChebCode),
        spec_parse_method("chebcode_fast"@) == Some(StieltjesMethod::ChebCodeFast),
        spec_parse_method("chebcode_xtreme"@) == Some(StieltjesMethod::ChebCodeXtreme),
        spec_parse_method("ewald"@) == Some(StieltjesMethod::Ewald),
        spec_parse_method("dst"@) == Some(StieltjesMethod::Dst),
        spec_parse_method("auto"@) == Some(StieltjesMethod::Auto),
        spec_parse_method("hodlr"@) == Some(StieltjesMethod::Hodlr),
        spec_parse_method("speed_auto"@) == Some(StieltjesMethod::SpeedAuto),
        spec_parse_method("accuracy_auto"@) == Some(StieltjesMethod::AccuracyAuto),
        spec_parse_method("treecode"@) == Some(StieltjesMethod::TreeCode),
        spec_parse_method("chebyshev"@) == Some(StieltjesMethod::ChebCode),
        spec_parse_method("chebf"@) == Some(StieltjesMethod::ChebCodeFast),
        spec_parse_method("chebx"@) == Some(StieltjesMethod::ChebCodeXtreme),
        spec_parse_method("speed"@) == Some(StieltjesMethod::SpeedAuto),
        spec_parse_method("accuracy"@) == Some(StieltjesMethod::AccuracyAuto),
{
    lemma_parse_method_inverts_name(StieltjesMethod::Naive);
    lemma_parse_method_inverts_name(StieltjesMethod::AutoVectorized);
    lemma_parse_method_inverts_name(StieltjesMethod::Blocked);
    lemma_parse_method_inverts_name(StieltjesMethod::BlockedAutoVec);
    lemma_parse_method_inverts_name(StieltjesMethod::BlockedTiled);
    lemma_parse_method_inverts_name(StieltjesMethod::BlockedWindowed);
    lemma_parse_method_inverts_name(StieltjesMethod::BlockedHybrid);
    lemma_parse_method_inverts_name(StieltjesMethod::Adaptive);
    lemma_parse_method_inverts_name(StieltjesMethod::Fft5);
    lemma_parse_method_inverts_name(StieltjesMethod::Fft3);
    lemma_parse_method_inverts_name(StieltjesMethod::Fft2);
    lemma_parse_method_inverts_name(StieltjesMethod::TreeCode);
    lemma_parse_method_inverts_name(StieltjesMethod::ChebCode);
    lemma_parse_method_inverts_name(StieltjesMethod::ChebCodeFast);
    lemma_parse_method_inverts_name(StieltjesMethod::ChebCodeXtreme);
    lemma_parse_method_inverts_name(StieltjesMethod::ChebCodeBalanced);
    lemma_parse_method_inverts_name(StieltjesMethod::Ewald);
    lemma_parse_method_inverts_name(StieltjesMethod::Dst);
    lemma_parse_method_inverts_name(StieltjesMethod::Auto);
    lemma_parse_method_inverts_name(StieltjesMethod::Hodlr);
    lemma_parse_method_inverts_name(StieltjesMethod::SpeedAuto);
    lemma_parse_method_inverts_name(StieltjesMethod::AccuracyAuto);
    lemma_equal_length_names_differ();
    reveal_strlit("naive");
    let _ = "naive"@.len();
    reveal_strlit("autovec");
    let _ = "autovec"@.len();
    reveal_strlit("blocked");
    let _ = "blocked"@.len();
    reveal_strlit("blocked_autovec");
    let _ = "blocked_autovec"@.len();
    reveal_strlit("blocked_tiled");
    let _ = "blocked_tiled"@.len();
    reveal_strlit("blocked_windowed");
    let _ = "blocked_windowed"@.len();
    reveal_strlit("blocked_hybrid");
    let _ = "blocked_hybrid"@.len();
    reveal_strlit("adaptive");
    let _ = "adaptive"@.len();
    reveal_strlit("fft5");
    let _ = "fft5"@.len();
    reveal_strlit("fft3");
    let _ = "fft3"@.len();
    reveal_strlit("fft2");
    let _ = "fft2"@.len();
    reveal_strlit("fmm");
    let _ = "fmm"@.len();
    reveal_strlit("chebcode");
    let _ = "chebcode"@.len();
    reveal_strlit("treecode");
    let _ = "treecode"@.len();
    assert("treecode"@[0] != "adaptive"@[0]);
    assert("treecode"@[0] != "chebcode"@[0]);
    reveal_strlit("chebyshev");
    let _ = "chebyshev"@.len();
    reveal_strlit("chebcode_fast");
    let _ = "chebcode_fast"@.len();
    reveal_strlit("chebcode_xtreme");
    let _ = "chebcode_xtreme"@.len();
    reveal_strlit("chebf");
    let _ = "chebf"@.len();
    reveal_strlit("ewald");
    let _ = "ewald"@.len();
    reveal_strlit("dst");
    let _ = "dst"@.len();
    reveal_strlit("auto");
    let _ = "auto"@.len();
    reveal_strlit("hodlr");
    let _ = "hodlr"@.len();
    reveal_strlit("speed_auto");
    let _ = "speed_auto"@.len();
    reveal_strlit("accuracy_auto");
    let _ = "accuracy_auto"@.len();
    reveal_strlit("chebf");
    reveal_strlit("chebx");
    reveal_strlit("speed");
    let _ = "speed"@.len();
    reveal_strlit("accuracy");
    let _ = "accuracy"@.len();
}

/// Different methods have different names.
pub proof fn lemma_method_names_distinct(a: StieltjesMethod, b: StieltjesMethod)
    ensures
        a != b ==> spec_method_name(a) != spec_method_name(b),
{
    lemma_parse_method_inverts_name(a);
    lemma_parse_method_inverts_name(b);
}

/// The names and aliases of equal length that the parser compares are all
/// different spellings.
proof fn lemma_equal_length_names_differ()
    ensures
        "dst"@ != "fmm"@,
        "auto"@ != "fft2"@,
        "auto"@ != "fft3"@,
        "auto"@ != "fft5"@,
        "fft2"@ != "fft3"@,
        "fft2"@ != "fft5"@,
        "fft3"@ != "fft5"@,
        "chebf"@ != "chebx"@,
        "chebf"@ != "ewald"@,
        "chebf"@ != "hodlr"@,
        "chebf"@ != "naive"@,
        "chebf"@ != "speed"@,
        "chebx"@ != "ewald"@,
        "chebx"@ != "hodlr"@,
        "chebx"@ != "naive"@,
        "chebx"@ != "speed"@,
        "ewald"@ != "hodlr"@,
        "ewald"@ != "naive"@,
        "ewald"@ != "speed"@,
        "hodlr"@ != "naive"@,
        "hodlr"@ != "speed"@,
        "naive"@ != "speed"@,
        "autovec"@ != "blocked"@,
        "accuracy"@ != "adaptive"@,
        "accuracy"@ != "chebcode"@,
        "accuracy"@ != "treecode"@,
        "adaptive"@ != "chebcode"@,
        "adaptive"@ != "treecode"@,
        "chebcode"@ != "treecode"@,
        "accuracy_auto"@ != "blocked_tiled"@,
        "accuracy_auto"@ != "chebcode_fast"@,
        "blocked_tiled"@ != "chebcode_fast"@,
        "blocked_autovec"@ != "chebcode_xtreme"@,
{
    reveal_strlit("accuracy");
    reveal_strlit("accuracy_auto");
    reveal_strlit("adaptive");
    reveal_strlit("auto");
    reveal_strlit("autovec");
    reveal_strlit("blocked");
    reveal_strlit("blocked_autovec");
    reveal_strlit("blocked_tiled");
    reveal_strlit("chebcode");
    reveal_strlit("chebcode_fast");
    reveal_strlit("chebcode_xtreme");
    reveal_strlit("chebf");
    reveal_strlit("chebx");
    reveal_strlit("dst");
    reveal_strlit("ewald");
    reveal_strlit("fft2");
    reveal_strlit("fft3");
    reveal_strlit("fft5");
    reveal_strlit("fmm");
    reveal_strlit("hodlr");
    reveal_strlit("naive");
    reveal_strlit("speed");
    reveal_strlit("treecode");
    assert("dst"@[0] != "fmm"@[0]);
    assert("auto"@[0] != "fft2"@[0]);
    assert("auto"@[0] != "fft3"@[0]);
    assert("auto"@[0] != "fft5"@[0]);
    assert("fft2"@[3] != "fft3"@[3]);
    assert("fft2"@[3] != "fft5"@[3]);
    assert("fft3"@[3] != "fft5"@[3]);
    assert("chebf"@[4] != "chebx"@[4]);
    assert("chebf"@[0] != "ewald"@[0]);
    assert("chebf"@[0] != "hodlr"@[0]);
    assert("chebf"@[0] != "naive"@[0]);
    assert("chebf"@[0] != "speed"@[0]);
    assert("chebx"@[0] != "ewald"@[0]);
    assert("chebx"@[0] != "hodlr"@[0]);
    assert("chebx"@[0] != "naive"@[0]);
    assert("chebx"@[0] != "speed"@[0]);
    assert("ewald"@[0] != "hodlr"@[0]);
    assert("ewald"@[0] != "naive"@[0]);
    assert("ewald"@[0] != "speed"@[0]);
    assert("hodlr"@[0] != "naive"@[0]);
    assert("hodlr"@[0] != "speed"@[0]);
    assert("naive"@[0] != "speed"@[0]);
    assert("autovec"@[0] != "blocked"@[0]);
    assert("accuracy"@[1] != "adaptive"@[1]);
    assert("accuracy"@[0] != "chebcode"@[0]);
    assert("accuracy"@[0] != "treecode"@[0]);
    assert("adaptive"@[0] != "chebcode"@[0]);
    assert("adaptive"@[0] != "treecode"@[0]);
    assert("chebcode"@[0] != "treecode"@[0]);
    assert("accuracy_auto"@[0] != "blocked_tiled"@[0]);
    assert("accuracy_auto"@[0] != "chebcode_fast"@[0]);
    assert("blocked_tiled"@[0] != "chebcode_fast"@[0]);
    assert("blocked_autovec"@[0] != "chebcode_xtreme"@[0]);
}

/// Parsing a method's own name gives the method back, for every method but
/// `ChebCodeBalanced`, whose name the parser does not accept.
pub proof fn lemma_parse_method_inverts_name(m: StieltjesMethod)
    ensures
        m != StieltjesMethod::ChebCodeBalanced ==> spec_parse_method(spec_method_name(m)) == Some(m),
        spec_parse_method(spec_method_name(StieltjesMethod::ChebCodeBalanced)) == None::<StieltjesMethod>,
{
    lemma_equal_length_names_differ();
    reveal_strlit("accuracy");
    let _ = "accuracy"@.len();
    reveal_strlit("accuracy_auto");
    let _ = "accuracy_auto"@.len();
    reveal_strlit("adaptive");
    let _ = "adaptive"@.len();
    reveal_strlit("auto");
    let _ = "auto"@.len();
    reveal_strlit("autovec");
    let _ = "autovec"@.len();
    reveal_strlit("blocked");
    let _ = "blocked"@.len();
    reveal_strlit("blocked_autovec");
    let _ = "blocked_autovec"@.len();
    reveal_strlit("blocked_hybrid");
    let _ = "blocked_hybrid"@.len();
    reveal_strlit("blocked_tiled");
    let _ = "blocked_tiled"@.len();
    reveal_strlit("blocked_windowed");
    let _ = "blocked_windowed"@.len();
    reveal_strlit("chebcode");
    let _ = "chebcode"@.len();
    reveal_strlit("chebcode_balanced");
    let _ = "chebcode_balanced"@.len();
    reveal_strlit("chebcode_fast");
    let _ = "chebcode_fast"@.len();
    reveal_strlit("chebcode_xtreme");
    let _ = "chebcode_xtreme"@.len();
    reveal_strlit("chebf");
    let _ = "chebf"@.len();
    reveal_strlit("chebx");
    let _ = "chebx"@.len();
    reveal_strlit("chebyshev");
    let _ = "chebyshev"@.len();
    reveal_strlit("dst");
    let _ = "dst"@.len();
    reveal_strlit("ewald");
    let _ = "ewald"@.len();
    reveal_strlit("fft2");
    let _ = "fft2"@.len();
    reveal_strlit("fft3");
    let _ = "fft3"@.len();
    reveal_strlit("fft5");
    let _ = "fft5"@.len();
    reveal_strlit("fmm");
    let _ = "fmm"@.len();
    reveal_strlit("hodlr");
    let _ = "hodlr"@.len();
    reveal_strlit("naive");
    let _ = "naive"@.len();
    reveal_strlit("speed");
    let _ = "speed"@.len();
    reveal_strlit("speed_auto");
    let _ = "speed_auto"@.len();
    reveal_strlit("treecode");
    let _ = "treecode"@.len();
    match m {
        StieltjesMethod::Naive => {},
        StieltjesMethod::AutoVectorized => {},
        StieltjesMethod::Blocked => {},
        StieltjesMethod::BlockedAutoVec => {},
        StieltjesMethod::BlockedTiled => {},
        StieltjesMethod::BlockedWindowed => {},
        StieltjesMethod::BlockedHybrid => {},
        StieltjesMethod::Adaptive => {},
        StieltjesMethod::Fft5 => {},
        StieltjesMethod::Fft3 => {},
        StieltjesMethod::Fft2 => {},
        StieltjesMethod::TreeCode => {},
        StieltjesMethod::ChebCode => {},
        StieltjesMethod::ChebCodeFast => {},
        StieltjesMethod::ChebCodeXtreme => {},
        StieltjesMethod::ChebCodeBalanced => {},
        StieltjesMethod::Ewald => {},
        StieltjesMethod::Dst => {},
        StieltjesMethod::Auto => {},
        StieltjesMethod::Hodlr => {},
        StieltjesMethod::SpeedAuto => {},
        StieltjesMethod::AccuracyAuto => {},
    }
}

/// The benchmarking list holds 18 distinct methods, none of them a meta
/// preset and not `Hodlr`.
pub proof fn lemma_all_methods_concrete()
    ensures
        spec_all_methods().len() == 18,
        spec_all_methods().no_duplicates(),
        forall|i: int|
            0 <= i < spec_all_methods().len() ==> !spec_is_auto(#[trigger] spec_all_methods()[i])
                && spec_all_methods()[i] != StieltjesMethod::Hodlr,
{
    assert(spec_all_methods().len() == 18);
}

/// Resolving any method, preset or not, yields a concrete method.
pub proof fn lemma_resolution_is_concrete(m: StieltjesMethod, parallel: bool, p: usize)
    ensures
        !spec_is_auto(spec_resolve_auto_method(m, parallel, p)),
{
    lemma_pareto_pick_concrete(true, parallel, p);
    lemma_pareto_pick_concrete(false, parallel, p);
}

/// `Auto` is the speed policy: it resolves exactly as `SpeedAuto`, to the
/// speed column of the Pareto table.
pub proof fn lemma_auto_is_speed_policy(parallel: bool, p: usize)
    ensures
        spec_resolve_auto_method(StieltjesMethod::Auto, parallel, p) == spec_resolve_auto_method(
            StieltjesMethod::SpeedAuto,
            parallel,
            p,
        ),
        spec_resolve_auto_method(StieltjesMethod::Auto, parallel, p) == spec_pareto_pick(
            true,
            parallel,
            p,
        ),
{
}

/// `Auto` and `SpeedAuto` resolve to the `ChebCodeFast` preset for every
/// problem size and every parallelism, whether for all points or for a few
/// query points.
pub proof fn lemma_speed_presets_resolve_to_chebcode_fast(k: KernelChoice, p: usize, nq: usize)
    requires
        k.stieltjes_method == StieltjesMethod::Auto || k.stieltjes_method
            == StieltjesMethod::SpeedAuto,
    ensures
        spec_resolve_auto(k, p).stieltjes_method == StieltjesMethod::ChebCodeFast,
        spec_resolve_auto_at_points(k, p, nq).stieltjes_method == StieltjesMethod::ChebCodeFast,
{
    lemma_speed_column_is_chebcode_fast(false, p);
    lemma_speed_column_is_chebcode_fast(true, p);
}

/// Resolution settles a kernel choice: `Auto` parallelism becomes
/// single-threaded, an explicit parallelism is kept, the method becomes
/// concrete, and resolving again changes nothing.
pub proof fn lemma_resolve_auto_settles(k: KernelChoice, p: usize)
    ensures
        spec_resolve_auto(k, p).parallelism == (if k.parallelism == Parallelism::Auto {
            Parallelism::Sequential
        } else {
            k.parallelism
        }),
        !spec_is_auto(spec_resolve_auto(k, p).stieltjes_method),
        spec_resolve_auto(spec_resolve_auto(k, p), p) == spec_resolve_auto(k, p),
{
    let r = spec_resolve_auto(k, p);
    lemma_resolution_is_concrete(k.stieltjes_method, r.parallelism == Parallelism::Parallel, p);
}

/// An explicitly named method is never second-guessed, whether the kernel
/// runs at the eigenvalues or at `nq` other query points.
pub proof fn lemma_explicit_method_honoured(k: KernelChoice, p: usize, nq: usize)
    requires
        !spec_is_auto(k.stieltjes_method),
    ensures
        spec_resolve_auto(k, p).stieltjes_method == k.stieltjes_method,
        spec_resolve_auto_at_points(k, p, nq).stieltjes_method == k.stieltjes_method,
{
}

/// Resolution at query points settles the choice too; it differs from the
/// all-points resolution only when an auto preset landed on a whole-grid
/// method and fewer than a quarter as many points are queried, and then it
/// runs the treecode speed preset.
pub proof fn lemma_at_points_resolution(k: KernelChoice, p: usize, nq: usize)
    ensures
        !spec_is_auto(spec_resolve_auto_at_points(k, p, nq).stieltjes_method),
        spec_resolve_auto_at_points(k, p, nq).parallelism == spec_resolve_auto(k, p).parallelism,
        spec_resolve_auto_at_points(k, p, nq) != spec_resolve_auto(k, p) ==> {
            &&& spec_is_auto(k.stieltjes_method)
            &&& nq * 4 < p
            &&& spec_is_whole_grid(spec_resolve_auto(k, p).stieltjes_method)
            &&& spec_resolve_auto_at_points(k, p, nq).stieltjes_method
                == StieltjesMethod::ChebCodeFast
        },
{
    lemma_resolve_auto_settles(k, p);
}

} // verus!
