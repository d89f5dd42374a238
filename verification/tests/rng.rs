use zklabubu::rng::Rng;

#[test]
fn draws_stay_below_the_bound() {
    let mut r = Rng::new(12345);
    for n in 1..50u32 {
        assert!(r.gen_below(n) < n);
    }
}

#[test]
fn same_seed_gives_the_same_run() {
    let mut a = Rng::new(99);
    let mut b = Rng::new(99);
    for _ in 0..20 {
        assert_eq!(a.gen_below(1000), b.gen_below(1000));
    }
}

#[test]
fn different_seeds_diverge_somewhere() {
    let mut a = Rng::new(1);
    let mut b = Rng::new(2);
    let mut differed = false;
    for _ in 0..20 {
        if a.gen_below(1000000) != b.gen_below(1000000) {
            differed = true;
        }
    }
    assert!(differed);
}
