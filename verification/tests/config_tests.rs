use shrinkers::config::{
    grid_appropriate, is_auto, parse_method, parse_parallel, resolve_auto_method, Cutoff,
    FftGridSize, KernelChoice, KernelSettings, DEFAULT_BLOCK_SIZE, SPEED_CUTOFF_RATIO_BITS, Parallelism, Precision, StieltjesMethod, Strategy,
};
use shrinkers::pareto::pareto_pick;

fn choice(method: StieltjesMethod, parallelism: Parallelism) -> KernelChoice {
    KernelChoice {
        stieltjes_method: method,
        parallelism,
    }
}

#[test]
fn test_auto_resolution_is_parallelism_aware() {
    for (par, p, expected) in [
        (Parallelism::Sequential, 10_000usize, StieltjesMethod::ChebCodeFast),
        (Parallelism::Parallel, 10_000usize, StieltjesMethod::ChebCodeFast),
        (Parallelism::Sequential, 100usize, StieltjesMethod::ChebCodeFast),
        (Parallelism::Parallel, 100usize, StieltjesMethod::ChebCodeFast),
    ] {
        let resolved = choice(StieltjesMethod::Auto, par).resolve_auto(p);
        assert_eq!(resolved.stieltjes_method, expected, "par={par:?} p={p}");
    }
}

#[test]
fn test_auto_parallelism_resolves_to_sequential() {
    let mut cfg = KernelSettings::new();
    cfg.stieltjes_method = StieltjesMethod::Auto;
    cfg.parallelism = Parallelism::Auto;
    let r = cfg.resolve_auto(10000);
    assert_eq!(r.parallelism, Parallelism::Sequential);
    assert_eq!(r.stieltjes_method, StieltjesMethod::ChebCodeFast);
    // Everything else stays as it was, and the input is untouched.
    assert_eq!(r.block_size, 64);
    assert_eq!(r.cutoff, Cutoff::Disabled);
    assert_eq!(r.fft_grid_size, FftGridSize::Auto);
    assert_eq!(r.precision, Precision::Float64);
    assert_eq!(cfg.stieltjes_method, StieltjesMethod::Auto);
    assert_eq!(cfg.parallelism, Parallelism::Auto);
}

#[test]
fn test_at_points_resolution_avoids_the_whole_grid_fft() {
    let cfg = choice(StieltjesMethod::Auto, Parallelism::Sequential);
    assert_eq!(
        cfg.resolve_auto(50_000).stieltjes_method,
        StieltjesMethod::ChebCodeFast,
        "precondition: the all-points table pick is ChebCodeFast here"
    );
    assert_eq!(
        cfg.resolve_auto_at_points(50_000, 200).stieltjes_method,
        StieltjesMethod::ChebCodeFast
    );
    let fft = choice(StieltjesMethod::Fft5, Parallelism::Sequential);
    assert_eq!(
        fft.resolve_auto_at_points(50_000, 200).stieltjes_method,
        StieltjesMethod::Fft5,
        "an explicit method is never second-guessed"
    );
    let speed = choice(StieltjesMethod::SpeedAuto, Parallelism::Sequential);
    assert_eq!(
        speed.resolve_auto_at_points(50_000, 200).stieltjes_method,
        StieltjesMethod::ChebCodeFast
    );
    for explicit in [
        StieltjesMethod::Fft5,
        StieltjesMethod::ChebCode,
        StieltjesMethod::Blocked,
    ] {
        let cfg = choice(explicit, Parallelism::Sequential);
        assert_eq!(
            cfg.resolve_auto_at_points(50_000, 200).stieltjes_method,
            explicit
        );
    }
}

#[test]
fn test_at_points_resolution_leaves_small_p_alone() {
    let cfg = choice(StieltjesMethod::Auto, Parallelism::Sequential);
    for p in [100usize, 1_000, 10_000, 20_000] {
        assert_eq!(
            cfg.resolve_auto_at_points(p, 200).stieltjes_method,
            cfg.resolve_auto(p).stieltjes_method,
            "p={p}"
        );
    }
}

#[test]
fn pareto_pick_returns_concrete_methods_everywhere() {
    for &p in &[1usize, 500, 1000, 1500, 4000, 9000, 15000, 30000, 80000] {
        for parallel in [false, true] {
            for speed in [false, true] {
                let m = pareto_pick(speed, parallel, p);
                assert!(
                    !matches!(
                        m,
                        StieltjesMethod::Auto
                            | StieltjesMethod::SpeedAuto
                            | StieltjesMethod::AccuracyAuto
                    ),
                    "p={p} par={parallel} speed={speed}: unresolved {m:?}"
                );
            }
        }
    }
}

#[test]
fn speed_preset_respects_parallelism_choice() {
    let mut cfg = KernelSettings::new();
    cfg.parallelism = Parallelism::Parallel;
    Strategy::Speed.apply(&mut cfg);
    assert_eq!(cfg.parallelism, Parallelism::Parallel);
    assert_eq!(cfg.stieltjes_method, StieltjesMethod::SpeedAuto);

    let mut cfg = KernelSettings::new();
    cfg.parallelism = Parallelism::Sequential;
    Strategy::Accuracy.apply(&mut cfg);
    assert_eq!(cfg.parallelism, Parallelism::Sequential);
}

#[test]
fn resolve_auto_resolves_presets() {
    for (method, par) in [
        (StieltjesMethod::SpeedAuto, Parallelism::Sequential),
        (StieltjesMethod::SpeedAuto, Parallelism::Parallel),
        (StieltjesMethod::AccuracyAuto, Parallelism::Sequential),
        (StieltjesMethod::AccuracyAuto, Parallelism::Parallel),
    ] {
        let r = choice(method, par).resolve_auto(12000);
        assert!(
            !matches!(
                r.stieltjes_method,
                StieltjesMethod::SpeedAuto | StieltjesMethod::AccuracyAuto
            ),
            "{method:?} did not resolve"
        );
    }
}

#[test]
fn method_names_and_descriptions() {
    assert_eq!(StieltjesMethod::Naive.name(), "naive");
    assert_eq!(StieltjesMethod::AutoVectorized.name(), "autovec");
    assert_eq!(StieltjesMethod::TreeCode.name(), "fmm");
    assert_eq!(StieltjesMethod::ChebCodeBalanced.name(), "chebcode_balanced");
    assert_eq!(StieltjesMethod::AccuracyAuto.name(), "accuracy_auto");
    assert_eq!(StieltjesMethod::Blocked.description(), "O(p²) cache-blocked + unrolled + FMA");
    assert_eq!(
        StieltjesMethod::Hodlr.description(),
        "O(p·r·log p) hierarchical low-rank (ACA) sums"
    );
    assert_eq!(Parallelism::Sequential.name(), "seq");
    assert_eq!(Parallelism::Parallel.name(), "parallel");
    assert_eq!(Parallelism::Auto.name(), "auto");
}

#[test]
fn all_lists_the_frontier_methods() {
    let all = StieltjesMethod::all();
    assert_eq!(all.len(), 18);
    assert_eq!(all[0], StieltjesMethod::Naive);
    assert_eq!(all[17], StieltjesMethod::Dst);
    for m in all {
        assert!(!is_auto(*m));
        assert_ne!(*m, StieltjesMethod::Hodlr);
    }
    for (i, a) in all.iter().enumerate() {
        for b in &all[i + 1..] {
            assert_ne!(a, b);
        }
    }
    assert_eq!(
        Parallelism::all(),
        &[Parallelism::Sequential, Parallelism::Parallel, Parallelism::Auto]
    );
}

#[test]
fn parse_method_inverts_names_except_balanced() {
    let every = [
        StieltjesMethod::Naive,
        StieltjesMethod::AutoVectorized,
        StieltjesMethod::Blocked,
        StieltjesMethod::BlockedAutoVec,
        StieltjesMethod::BlockedTiled,
        StieltjesMethod::BlockedWindowed,
        StieltjesMethod::BlockedHybrid,
        StieltjesMethod::Adaptive,
        StieltjesMethod::Fft5,
        StieltjesMethod::Fft3,
        StieltjesMethod::Fft2,
        StieltjesMethod::TreeCode,
        StieltjesMethod::ChebCode,
        StieltjesMethod::ChebCodeFast,
        StieltjesMethod::ChebCodeXtreme,
        StieltjesMethod::ChebCodeBalanced,
        StieltjesMethod::Ewald,
        StieltjesMethod::Dst,
        StieltjesMethod::Auto,
        StieltjesMethod::Hodlr,
        StieltjesMethod::SpeedAuto,
        StieltjesMethod::AccuracyAuto,
    ];
    for m in every {
        if m == StieltjesMethod::ChebCodeBalanced {
            assert_eq!(parse_method(m.name()), None);
        } else {
            assert_eq!(parse_method(m.name()), Some(m));
        }
    }
}

#[test]
fn parse_method_aliases_and_unknowns() {
    assert_eq!(parse_method("treecode"), Some(StieltjesMethod::TreeCode));
    assert_eq!(parse_method("chebyshev"), Some(StieltjesMethod::ChebCode));
    assert_eq!(parse_method("chebf"), Some(StieltjesMethod::ChebCodeFast));
    assert_eq!(parse_method("chebx"), Some(StieltjesMethod::ChebCodeXtreme));
    assert_eq!(parse_method("speed"), Some(StieltjesMethod::SpeedAuto));
    assert_eq!(parse_method("accuracy"), Some(StieltjesMethod::AccuracyAuto));
    assert_eq!(parse_method("Naive"), None);
    assert_eq!(parse_method(""), None);
    assert_eq!(parse_method("blocked_"), None);
    assert_eq!(parse_method("naïve"), None);
}

#[test]
fn parse_parallel_switch() {
    assert_eq!(parse_parallel(None), Parallelism::Auto);
    assert_eq!(parse_parallel(Some(false)), Parallelism::Sequential);
    assert_eq!(parse_parallel(Some(true)), Parallelism::Parallel);
}

#[test]
fn resolve_uses_the_speed_column() {
    assert_eq!(
        StieltjesMethod::resolve(100, Parallelism::Sequential),
        StieltjesMethod::ChebCodeFast
    );
    assert_eq!(
        StieltjesMethod::resolve(100_000, Parallelism::Parallel),
        StieltjesMethod::ChebCodeFast
    );
    assert_eq!(
        Parallelism::resolve(1_000_000, StieltjesMethod::Blocked),
        Parallelism::Sequential
    );
}

#[test]
fn accuracy_column_is_exact_then_treecode() {
    assert_eq!(pareto_pick(false, false, 5000), StieltjesMethod::BlockedTiled);
    assert_eq!(pareto_pick(false, false, 5001), StieltjesMethod::ChebCodeXtreme);
    assert_eq!(pareto_pick(false, true, 20000), StieltjesMethod::Blocked);
    assert_eq!(pareto_pick(false, true, 20001), StieltjesMethod::ChebCodeXtreme);
    assert_eq!(
        resolve_auto_method(StieltjesMethod::AccuracyAuto, false, 100),
        StieltjesMethod::BlockedTiled
    );
    assert_eq!(
        resolve_auto_method(StieltjesMethod::Ewald, true, 100),
        StieltjesMethod::Ewald
    );
}

#[test]
fn grid_redirect_only_for_whole_grid_methods() {
    assert_eq!(
        grid_appropriate(StieltjesMethod::Fft2, 1000, 249),
        StieltjesMethod::ChebCodeFast
    );
    assert_eq!(grid_appropriate(StieltjesMethod::Fft2, 1000, 250), StieltjesMethod::Fft2);
    assert_eq!(
        grid_appropriate(StieltjesMethod::Dst, 1000, 10),
        StieltjesMethod::ChebCodeFast
    );
    assert_eq!(
        grid_appropriate(StieltjesMethod::Adaptive, 1000, 10),
        StieltjesMethod::ChebCodeFast
    );
    assert_eq!(
        grid_appropriate(StieltjesMethod::Blocked, 1000, 10),
        StieltjesMethod::Blocked
    );
    assert_eq!(
        grid_appropriate(StieltjesMethod::Fft5, 10, usize::MAX),
        StieltjesMethod::Fft5
    );
}

#[test]
fn resolution_is_idempotent_and_keeps_explicit_parallelism() {
    let k = choice(StieltjesMethod::AccuracyAuto, Parallelism::Parallel);
    let r = k.resolve_auto(12_000);
    assert_eq!(r.parallelism, Parallelism::Parallel);
    assert_eq!(r.stieltjes_method, StieltjesMethod::Blocked);
    assert_eq!(r.resolve_auto(12_000), r);
    let d = KernelChoice::new();
    assert_eq!(d.stieltjes_method, StieltjesMethod::Blocked);
    assert_eq!(d.parallelism, Parallelism::Sequential);
}

#[test]
fn label_names_method_and_parallelism() {
    assert_eq!(KernelChoice::new().label(), "st=blocked,par=seq");
    assert_eq!(
        choice(StieltjesMethod::ChebCodeFast, Parallelism::Auto).label(),
        "st=chebcode_fast,par=auto"
    );
}

#[test]
fn strategy_presets() {
    let d = Strategy::Default.preset();
    assert_eq!(d.stieltjes_method, StieltjesMethod::Blocked);
    assert_eq!(d.cutoff, Cutoff::Disabled);
    assert_eq!(d.block_size, DEFAULT_BLOCK_SIZE);
    assert_eq!(d.block_size, 64);
    let s = Strategy::Speed.preset();
    assert_eq!(
        s.cutoff,
        Cutoff::Enabled {
            ratio_bits: SPEED_CUTOFF_RATIO_BITS
        }
    );
    assert_eq!(f64::from_bits(SPEED_CUTOFF_RATIO_BITS), 10.0);
    assert_eq!(s.block_size, 16);
    let a = Strategy::Accuracy.preset();
    assert_eq!(a.stieltjes_method, StieltjesMethod::AccuracyAuto);
    assert_eq!(a.cutoff, Cutoff::Disabled);
    assert_eq!(a.block_size, 32);
}

#[test]
fn default_strategy_restores_the_default_configuration() {
    // Applied after the speed preset, `Default` brings back what a fresh
    // configuration holds: the exact kernel, no cutoff, block size 64.
    let mut k = KernelSettings::new();
    Strategy::Speed.apply(&mut k);
    assert_eq!(k.stieltjes_method, StieltjesMethod::SpeedAuto);
    assert_eq!(k.block_size, 16);
    assert_eq!(
        k.cutoff,
        Cutoff::Enabled {
            ratio_bits: 10.0f64.to_bits()
        }
    );
    Strategy::Default.apply(&mut k);
    assert_eq!(k, KernelSettings::new());
    let mut k = KernelSettings::new();
    k.fft_grid_size = FftGridSize::Custom(1024);
    k.precision = Precision::Float32;
    Strategy::Accuracy.apply(&mut k);
    assert_eq!(k.stieltjes_method, StieltjesMethod::AccuracyAuto);
    assert_eq!(k.block_size, 32);
    assert_eq!(k.cutoff, Cutoff::Disabled);
    assert_eq!(k.fft_grid_size, FftGridSize::Custom(1024));
    assert_eq!(k.precision, Precision::Float32);
    let d = Strategy::Default.preset();
    assert_eq!(d.stieltjes_method, KernelChoice::new().stieltjes_method);
    assert_eq!(d.cutoff, Cutoff::Disabled);
    assert_eq!(d.block_size, DEFAULT_BLOCK_SIZE);
}

#[test]
fn grid_size_and_precision() {
    assert_eq!(FftGridSize::Auto.grid_points(), None);
    assert_eq!(FftGridSize::Custom(4096).grid_points(), Some(4096));
    assert_eq!(Precision::default(), Precision::Float64);
}

#[test]
fn settings_resolution_at_points_and_label() {
    let mut cfg = KernelSettings::fully_naive();
    assert_eq!(cfg.stieltjes_method, StieltjesMethod::Naive);
    cfg.stieltjes_method = StieltjesMethod::SpeedAuto;
    cfg.block_size = 7;
    let r = cfg.resolve_auto_at_points(50_000, 200);
    assert_eq!(r.stieltjes_method, StieltjesMethod::ChebCodeFast);
    assert_eq!(r.block_size, 7);
    assert_eq!(KernelSettings::new().label(), "st=blocked,par=seq");
}
