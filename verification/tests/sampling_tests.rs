use shrinkers::spiked::split_by_indices;
use shrinkers::hodlr::{
    fit_rows, rank_schedule, test_columns,
    child_seed, restore_order, sample_without_replacement, split_index, stratified_sample, HodlrMode,
    Rng,
};

#[test]
fn rng_outputs_are_fixed() {
    let mut r = Rng::new(0);
    assert_eq!(r.next_u64(), 5197578546553278707);
    assert_eq!(r.next_u64(), 16096737271329287245);
    let mut r = Rng::new(42);
    let draws: Vec<usize> = (0..5).map(|_| r.below(10)).collect();
    assert_eq!(draws, vec![9, 9, 4, 3, 2]);
}

#[test]
fn rng_below_zero_is_zero() {
    let mut r = Rng::new(5);
    assert_eq!(r.below(0), 0);
    assert_eq!(r.below(1), 0);
}

#[test]
fn rng_same_seed_same_stream() {
    let mut a = Rng::new(123);
    let mut b = Rng::new(123);
    for _ in 0..16 {
        assert_eq!(a.next_u64(), b.next_u64());
    }
    let mut c = Rng::new(124);
    assert_ne!(Rng::new(123).next_u64(), c.next_u64());
}

#[test]
fn sample_without_replacement_values() {
    let mut r = Rng::new(7);
    assert_eq!(sample_without_replacement(10, 4, &mut r), vec![1, 6, 7, 8]);
    let mut r = Rng::new(7);
    assert_eq!(sample_without_replacement(5, 9, &mut r), vec![0, 1, 2, 3, 4]);
    let mut r = Rng::new(7);
    assert_eq!(sample_without_replacement(0, 3, &mut r), Vec::<usize>::new());
}

#[test]
fn sample_is_sorted_distinct_and_sized() {
    for seed in 0..20u64 {
        for (n, k) in [(50usize, 7usize), (9, 9), (30, 0), (3, 8)] {
            let mut r = Rng::new(seed);
            let s = sample_without_replacement(n, k, &mut r);
            assert_eq!(s.len(), k.min(n));
            for w in s.windows(2) {
                assert!(w[0] < w[1]);
            }
            assert!(s.iter().all(|&v| v < n));
        }
    }
}

#[test]
fn stratified_sample_values() {
    let mut r = Rng::new(3);
    assert_eq!(
        stratified_sample(100, 12, &mut r),
        vec![0, 1, 3, 7, 15, 84, 92, 96, 98, 99]
    );
    let mut r = Rng::new(3);
    assert_eq!(stratified_sample(10, 3, &mut r), vec![0, 1, 8]);
    let mut r = Rng::new(3);
    assert_eq!(stratified_sample(6, 6, &mut r), vec![0, 1, 2, 3, 4, 5]);
    let mut r = Rng::new(11);
    assert_eq!(
        stratified_sample(1000, 20, &mut r),
        vec![0, 1, 3, 7, 15, 31, 63, 127, 255, 744, 872, 936, 968, 984, 992, 996, 998, 999]
    );
}

#[test]
fn stratified_sample_shape() {
    for seed in 0..10u64 {
        for (n, k) in [(200usize, 40usize), (5, 2), (1, 0), (64, 63), (8, 100)] {
            let mut r = Rng::new(seed);
            let s = stratified_sample(n, k, &mut r);
            assert!(s.len() <= k.max(n.min(k)) || k >= n);
            if k >= n {
                assert_eq!(s, (0..n).collect::<Vec<usize>>());
            } else {
                assert!(s.len() <= k);
            }
            for w in s.windows(2) {
                assert!(w[0] < w[1]);
            }
            assert!(s.iter().all(|&v| v < n));
        }
    }
}

#[test]
fn stratified_sample_draws_only_when_filling() {
    // k = 3 < strips: no uniform fill, the generator is untouched.
    let mut r = Rng::new(9);
    let _ = stratified_sample(10, 3, &mut r);
    assert_eq!(r.next_u64(), Rng::new(9).next_u64());
}

#[test]
fn seeds_and_splits() {
    assert_eq!(child_seed(1, true), 3);
    assert_eq!(child_seed(1, false), 2);
    assert_eq!(child_seed(u64::MAX, true), u64::MAX);
    assert_ne!(child_seed(u64::MAX, true), child_seed(u64::MAX, false));
    assert_eq!(child_seed(u64::MAX, false) % 2, 0);
    assert_eq!(split_index(10, 20, 4), 14);
    assert_eq!(split_index(10, 20, 0), 15);
    assert_eq!(split_index(10, 20, 10), 15);
    assert_eq!(HodlrMode::Aca, HodlrMode::Aca);
    assert_ne!(HodlrMode::Aca, HodlrMode::Random);
}

#[test]
fn restore_order_scatters() {
    let sums = vec![10, 20, 30, 40];
    let perm: Vec<u32> = vec![2, 0, 3, 1];
    assert_eq!(restore_order(&sums, &perm, 0), vec![20, 40, 10, 30]);
}

#[test]
fn split_by_indices_partitions() {
    let sorted = vec![0.5, 1.0, 2.0, 3.0, 5.0, 10.0];
    let (spikes, bulk) = split_by_indices(&sorted, &vec![4, 5]);
    assert_eq!(spikes, vec![5.0, 10.0]);
    assert_eq!(bulk, vec![0.5, 1.0, 2.0, 3.0]);
    let (spikes, bulk) = split_by_indices(&sorted, &vec![]);
    assert!(spikes.is_empty());
    assert_eq!(bulk, sorted);
    let (spikes, bulk) = split_by_indices(&vec![1, 2, 3], &vec![0, 2]);
    assert_eq!(spikes, vec![1, 3]);
    assert_eq!(bulk, vec![2]);
}

#[test]
fn fit_rows_strips_only_when_they_suffice() {
    let mut r = Rng::new(9);
    assert_eq!(fit_rows(40, 6, &mut r), vec![0, 1, 2, 3, 36, 37, 38, 39]);
    let mut fresh = Rng::new(9);
    assert_eq!(r.next_u64(), fresh.next_u64());
    let mut r = Rng::new(9);
    assert_eq!(fit_rows(6, 2, &mut r), vec![0, 1, 2, 3, 4, 5]);
}

#[test]
fn fit_rows_adds_stratified_rows() {
    let mut r = Rng::new(9);
    let rows = fit_rows(100, 20, &mut r);
    assert_eq!(
        rows,
        vec![
            0, 1, 2, 3, 4, 5, 7, 8, 11, 12, 15, 24, 26, 28, 31, 51, 54, 56, 57, 62, 66, 68, 69,
            73, 84, 92, 96, 97, 98, 99
        ]
    );
    let mut fresh = Rng::new(9);
    for _ in 0..18 {
        fresh.next_u64();
    }
    assert_eq!(r.next_u64(), fresh.next_u64());
}

#[test]
fn test_columns_strips_then_probes() {
    let mut r = Rng::new(13);
    assert_eq!(
        test_columns(50, &mut r),
        vec![0, 1, 2, 3, 46, 47, 48, 49, 45, 37, 45, 17, 35, 27, 22, 29]
    );
    assert_eq!(r.next_u64(), 3422699955643868024);
    let mut r = Rng::new(13);
    assert_eq!(test_columns(3, &mut r), vec![0, 2, 1, 1, 1, 0, 1, 2, 1, 1]);
}

#[test]
fn rank_schedule_doubles_to_saturation() {
    assert_eq!(rank_schedule(8, 64, 100, 120), vec![8, 16, 32, 64]);
    assert_eq!(rank_schedule(8, 64, 10, 200), vec![8, 16]);
    assert_eq!(rank_schedule(24, 20, 500, 500), vec![20]);
    assert_eq!(rank_schedule(8, 0, 5, 5), vec![0]);
    assert_eq!(rank_schedule(16, 100, 0, 7), vec![7]);
    assert_eq!(rank_schedule(8, 1000, 1, 1), vec![1]);
    assert_eq!(rank_schedule(8, 50, 1000, 1000), vec![8, 16, 32, 50]);
}
