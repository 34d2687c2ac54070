# shrinkers

Random-matrix-theory eigenvalue cleaning: spike detection and inverse-BBP
debiasing, El Karoui bulk deconvolution and RIE shrinkage, built on fast
Stieltjes-transform kernels.

## Layout

- `src/` — the verified library (Verus). It holds every rule of the crate
  that works on plain values, each with a contract and the laws that tie the
  functions together:
  - `config` — the Stieltjes methods, their names, parsing, descriptions and
    the resolution of the `auto` presets; parallelism; the plain settings
    of a configuration (method, parallelism, grid size, block size, cutoff,
    precision), the strategy presets applied to them, and their resolution.
  - `pareto` — the speed/accuracy table behind the `auto` presets.
  - `inverse` — the inverse-shrinkage method names (case-insensitive).
  - `grid` — FFT grid sizes, interpolation stencils, tile blocks and the
    parallel spans of the tiled kernel.
  - `hodlr` — the deterministic generator and samplers of the hierarchical
    solver, its sample-size schedule, tree splits and child seeds, and the
    scatter back to the caller's order.
  - `pipeline` — the column permutation of an eigenvector matrix.
  - `spiked` — the split of a sorted spectrum into spikes and bulk.
- `tests/` — tests of the library on concrete values.
- `app/` — the floating-point numerics around the library: the Stieltjes
  kernels (exact, cache-blocked, FFT, treecodes, HODLR), spike detection,
  the deconvolution and the covariance-cleaning pipeline.
