use skylar::sampler::{
    build_histogram, generate_keys, sequential_index, DistributionKind, Sampler, SamplerError,
};

const ALL_KINDS: [DistributionKind; 7] = [
    DistributionKind::Sequential,
    DistributionKind::Uniform,
    DistributionKind::Normal,
    DistributionKind::Poisson,
    DistributionKind::Binomial,
    DistributionKind::Geometric,
    DistributionKind::Zipf,
];

fn keys(n: usize) -> Vec<u128> {
    (0..n).map(|i| 1000 + i as u128).collect()
}

#[test]
fn names_select_their_kinds() {
    assert_eq!(DistributionKind::from_name("sequential"), DistributionKind::Sequential);
    assert_eq!(DistributionKind::from_name("uniform"), DistributionKind::Uniform);
    assert_eq!(DistributionKind::from_name("normal"), DistributionKind::Normal);
    assert_eq!(DistributionKind::from_name("poisson"), DistributionKind::Poisson);
    assert_eq!(DistributionKind::from_name("binomial"), DistributionKind::Binomial);
    assert_eq!(DistributionKind::from_name("geometric"), DistributionKind::Geometric);
    assert_eq!(DistributionKind::from_name("zipf"), DistributionKind::Zipf);
}

#[test]
fn unknown_names_fall_back_to_uniform() {
    assert_eq!(DistributionKind::from_name(""), DistributionKind::Uniform);
    assert_eq!(DistributionKind::from_name("Normal"), DistributionKind::Uniform);
    assert_eq!(DistributionKind::from_name("zipf "), DistributionKind::Uniform);
    assert_eq!(DistributionKind::from_name("pareto"), DistributionKind::Uniform);
}

#[test]
fn every_kind_is_selected_by_its_name() {
    for kind in ALL_KINDS {
        assert_eq!(DistributionKind::from_name(kind.name()), kind);
    }
}

#[test]
fn only_the_skewed_kinds_are_weighted() {
    assert!(!DistributionKind::Sequential.weighted());
    assert!(!DistributionKind::Uniform.weighted());
    assert!(DistributionKind::Normal.weighted());
    assert!(DistributionKind::Poisson.weighted());
    assert!(DistributionKind::Binomial.weighted());
    assert!(DistributionKind::Geometric.weighted());
    assert!(DistributionKind::Zipf.weighted());
}

#[test]
fn histogram_counts_the_draws_per_index() {
    let draws: Vec<i64> = vec![0, 2, 2, 4, 9, 2, 0, 5, i64::MAX];
    assert_eq!(build_histogram(&draws, 5), vec![2, 0, 3, 0, 1]);
}

#[test]
fn histogram_of_no_draws_is_all_zero() {
    assert_eq!(build_histogram(&Vec::new(), 4), vec![0, 0, 0, 0]);
    assert_eq!(build_histogram(&vec![1, 2, 3], 0), Vec::<usize>::new());
}

#[test]
fn histogram_ignores_draws_out_of_range() {
    assert_eq!(build_histogram(&vec![3, 4, 5, 100], 3), vec![0, 0, 0]);
    assert_eq!(build_histogram(&vec![2, 3], 3), vec![0, 0, 1]);
}

#[test]
fn sequential_index_wraps_at_the_cardinality() {
    assert_eq!(sequential_index(0, 3), 0);
    assert_eq!(sequential_index(1, 3), 1);
    assert_eq!(sequential_index(2, 3), 2);
    assert_eq!(sequential_index(3, 3), 0);
    assert_eq!(sequential_index(usize::MAX, 1), 0);
    assert_eq!(sequential_index(10, 7), 3);
}

#[test]
fn generated_keys_are_as_many_as_asked() {
    assert_eq!(generate_keys(0).len(), 0);
    assert_eq!(generate_keys(1).len(), 1);
    let keys = generate_keys(257);
    assert_eq!(keys.len(), 257);
    for key in keys {
        // Version four, variant one.
        assert_eq!((key >> 76) & 0xf, 4);
        assert_eq!((key >> 62) & 0x3, 2);
    }
}

#[test]
fn no_sampler_over_no_keys() {
    for kind in ALL_KINDS {
        let made = Sampler::new(kind, Vec::new(), &Vec::new());
        assert_eq!(made.err(), Some(SamplerError::EmptyKeySet));
    }
}

#[test]
fn weighted_sampler_needs_one_draw_per_key() {
    let made = Sampler::new(DistributionKind::Normal, keys(3), &vec![1, 1]);
    assert_eq!(made.err(), Some(SamplerError::DrawCountMismatch));
    let made = Sampler::new(DistributionKind::Zipf, keys(3), &vec![1, 1, 1, 1]);
    assert_eq!(made.err(), Some(SamplerError::DrawCountMismatch));
    let made = Sampler::new(DistributionKind::Poisson, keys(3), &Vec::new());
    assert_eq!(made.err(), Some(SamplerError::DrawCountMismatch));
}

#[test]
fn weighted_sampler_needs_a_draw_in_range() {
    let made = Sampler::new(DistributionKind::Geometric, keys(3), &vec![3, 4, i64::MAX]);
    assert_eq!(made.err(), Some(SamplerError::NoDrawInRange));
}

#[test]
fn plain_kinds_do_not_look_at_the_draws() {
    assert!(Sampler::new(DistributionKind::Sequential, keys(3), &Vec::new()).is_ok());
    assert!(Sampler::new(DistributionKind::Uniform, keys(3), &vec![9, 9, 9, 9]).is_ok());
}

#[test]
fn sampled_index_is_below_the_cardinality_for_every_kind() {
    for cardinality in [1usize, 2, 3, 10, 64] {
        for kind in ALL_KINDS {
            let draws: Vec<i64> =
                (0..cardinality).map(|i| ((i * 7) % (cardinality + 2)) as i64).collect();
            let sampler = Sampler::new(kind, keys(cardinality), &draws).unwrap();
            assert_eq!(sampler.cardinality(), cardinality);
            assert_eq!(sampler.distribution(), kind);
            for _ in 0..200 {
                assert!(sampler.sample_index() < cardinality);
            }
        }
    }
}

#[test]
fn sampled_key_is_one_of_the_candidates() {
    for kind in ALL_KINDS {
        let candidates = keys(5);
        let sampler = Sampler::new(kind, candidates.clone(), &vec![0, 1, 2, 3, 4]).unwrap();
        for _ in 0..100 {
            assert!(candidates.contains(&sampler.sample()));
        }
    }
}

#[test]
fn sequential_sampling_visits_the_indices_in_order() {
    let sampler = Sampler::new(DistributionKind::Sequential, keys(4), &Vec::new()).unwrap();
    let visited: Vec<usize> = (0..10).map(|_| sampler.sample_index()).collect();
    assert_eq!(visited, vec![0, 1, 2, 3, 0, 1, 2, 3, 0, 1]);
}

#[test]
fn sequential_sampling_returns_the_keys_in_order() {
    let sampler = Sampler::new(DistributionKind::Sequential, keys(3), &Vec::new()).unwrap();
    assert_eq!(sampler.sample(), 1000);
    assert_eq!(sampler.sample(), 1001);
    assert_eq!(sampler.sample(), 1002);
    assert_eq!(sampler.sample(), 1000);
    assert_eq!(sampler.key_at(2), 1002);
}

#[test]
fn sequential_sampling_by_several_callers_leaves_no_gap() {
    let cardinality = 50;
    let sampler = Sampler::new(DistributionKind::Sequential, keys(cardinality), &Vec::new()).unwrap();
    let callers: [&Sampler; 4] = [&sampler, &sampler, &sampler, &sampler];
    let mut counts = vec![0usize; cardinality];
    let mut last = None;
    for turn in 0..1000 {
        let index = callers[(turn * 7) % 4].sample_index();
        if let Some(previous) = last {
            assert_eq!(index, (previous + 1) % cardinality);
        }
        last = Some(index);
        counts[index] += 1;
    }
    // 1000 picks over 50 keys: every index was visited exactly 20 times.
    assert_eq!(counts, vec![20usize; cardinality]);
}

#[test]
fn weighted_sampling_never_picks_an_index_without_weight() {
    // All draws fall on index 2.
    let sampler = Sampler::new(DistributionKind::Normal, keys(4), &vec![2, 2, 2, 2]).unwrap();
    for _ in 0..200 {
        assert_eq!(sampler.sample_index(), 2);
        assert_eq!(sampler.sample(), 1002);
    }
    // Draws fall on the indices 0 and 3, and beyond the keys.
    let sampler = Sampler::new(DistributionKind::Zipf, keys(4), &vec![0, 3, 3, 17]).unwrap();
    let mut seen = [false; 4];
    for _ in 0..500 {
        seen[sampler.sample_index()] = true;
    }
    assert!(!seen[1] && !seen[2]);
    assert!(seen[0] && seen[3]);
}

#[test]
fn weighted_sampling_follows_the_weights() {
    // Index 1 weighs nine times as much as index 0.
    let mut draws = vec![1i64; 900];
    draws.extend(vec![0i64; 100]);
    let sampler = Sampler::new(DistributionKind::Binomial, keys(1000), &draws).unwrap();
    let mut counts = [0usize; 2];
    for _ in 0..10_000 {
        counts[sampler.sample_index()] += 1;
    }
    assert!(counts[1] > 8_000 && counts[1] < 9_800);
    assert_eq!(counts[0] + counts[1], 10_000);
}

#[test]
fn uniform_sampling_reaches_every_index() {
    let sampler = Sampler::new(DistributionKind::Uniform, keys(4), &Vec::new()).unwrap();
    let mut seen = [false; 4];
    for _ in 0..1000 {
        seen[sampler.sample_index()] = true;
    }
    assert_eq!(seen, [true; 4]);
}

#[test]
fn negative_draws_count_nowhere() {
    assert_eq!(build_histogram(&vec![-1, 0, -5, i64::MIN, 2], 3), vec![1, 0, 1]);
    assert_eq!(build_histogram(&vec![-1, -2, -3], 3), vec![0, 0, 0]);
    let made = Sampler::new(DistributionKind::Normal, keys(3), &vec![-1, -1, 3]);
    assert_eq!(made.err(), Some(SamplerError::NoDrawInRange));
    // The one draw in range falls on the last key, not on the first.
    let sampler = Sampler::new(DistributionKind::Normal, keys(3), &vec![-1, -7, 2]).unwrap();
    for _ in 0..100 {
        assert_eq!(sampler.sample(), 1002);
    }
}

#[test]
fn weighted_sample_is_the_key_of_the_picked_index() {
    // Keys 10, 20, 30 with draws 0, 0 and 5: only the first key has weight.
    let sampler = Sampler::new(DistributionKind::Poisson, vec![10, 20, 30], &vec![0, 0, 5]).unwrap();
    for _ in 0..100 {
        assert_eq!(sampler.sample_index(), 0);
        assert_eq!(sampler.sample(), 10);
    }
}

#[test]
fn sequential_keys_go_round_the_candidates() {
    let sampler = Sampler::new(DistributionKind::Sequential, keys(3), &Vec::new()).unwrap();
    let round: Vec<u128> = (7..10).map(|ticket| sampler.sequential_key(ticket)).collect();
    assert_eq!(round, vec![1001, 1002, 1000]);
    assert_eq!(sampler.sequential_key(10), sampler.sequential_key(7));
    assert_eq!(sampler.sequential_key(0), 1000);
    assert_eq!(sampler.sequential_key(usize::MAX), 1000 + (usize::MAX % 3) as u128);
    // Asking for the key of a ticket takes no ticket.
    assert_eq!(sampler.sample(), 1000);
}
