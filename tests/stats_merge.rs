use champ_build::stats::{Stat, StatName, Stats, STAT_LIMIT};

fn stat(flat: i64, percent: i64, per_level: i64, percent_base: i64, percent_bonus: i64) -> Stat {
    Stat { flat, percent, per_level, percent_base, percent_bonus }
}

#[test]
fn add_sums_every_field() {
    let a = stat(1, 2, 3, 4, 5);
    let b = stat(10, 20, 30, 40, 50);
    assert_eq!(champ_build::stats::add(&a, &b), stat(11, 22, 33, 44, 55));
}

#[test]
fn add_is_associative_on_values() {
    let a = stat(1_500_000, -2, 3, 0, 7);
    let b = stat(-4, 250_000, 6, 9, -1);
    let c = stat(7, 8, -900_000, 12, 3);
    let left = champ_build::stats::add(&champ_build::stats::add(&a, &b), &c);
    let right = champ_build::stats::add(&a, &champ_build::stats::add(&b, &c));
    assert_eq!(left, right);
}

#[test]
fn add_zero_is_identity() {
    let a = stat(5, -6, 7, -8, 9);
    assert_eq!(champ_build::stats::add(&a, &Stat::new()), a);
    assert_eq!(champ_build::stats::add(&Stat::new(), &a), a);
    assert_eq!(Stat::default(), Stat::new());
}

fn sample_block(seed: i64) -> Stats {
    let mut s = Stats::new();
    s.armor = stat(seed, 1, 2, 3, 4);
    s.attack_speed = stat(2 * seed, -seed, 0, 1, 0);
    s.magic_resistance = stat(-seed, 0, seed, 0, 5);
    s.tenacity = stat(0, 3 * seed, 0, 0, 0);
    s
}

#[test]
fn add_stats_is_commutative() {
    let a = sample_block(3);
    let b = sample_block(-11);
    assert_eq!(Stats::add_stats(&a, &b), Stats::add_stats(&b, &a));
}

#[test]
fn add_stats_is_associative() {
    let a = sample_block(3);
    let b = sample_block(-11);
    let c = sample_block(1_000_000);
    let left = Stats::add_stats(&Stats::add_stats(&a, &b), &c);
    let right = Stats::add_stats(&a, &Stats::add_stats(&b, &c));
    assert_eq!(left, right);
}

#[test]
fn add_stats_with_zero_block_is_identity() {
    let a = sample_block(42);
    assert_eq!(Stats::add_stats(&a, &Stats::new()), a);
    assert_eq!(Stats::add_stats(&Stats::create_stats(), &a), a);
}

#[test]
fn add_stats_covers_magic_resistance() {
    let a = sample_block(2);
    let b = sample_block(5);
    let m = Stats::add_stats(&a, &b);
    assert_eq!(m.magic_resistance, stat(-7, 0, 7, 0, 10));
    assert_eq!(m.armor, stat(7, 2, 4, 6, 8));
    assert_eq!(m.health, Stat::new());
}

#[test]
fn get_and_set_by_name() {
    let mut s = Stats::new();
    s.set(StatName::Lethality, stat(18, 0, 0, 0, 0));
    assert_eq!(s.lethality, stat(18, 0, 0, 0, 0));
    assert_eq!(s.get(StatName::Lethality), stat(18, 0, 0, 0, 0));
    assert_eq!(s.get(StatName::Armor), Stat::new());
    assert_eq!(s.get_stats(), s);
}

#[test]
fn bounds_are_checked() {
    let mut s = Stats::new();
    assert!(s.is_within(STAT_LIMIT));
    s.mana.percent_bonus = STAT_LIMIT;
    assert!(s.is_within(STAT_LIMIT));
    s.mana.percent_bonus = STAT_LIMIT + 1;
    assert!(!s.is_within(STAT_LIMIT));
    assert!(!s.mana.is_within(STAT_LIMIT));
    s.mana.percent_bonus = -STAT_LIMIT - 1;
    assert!(!s.is_within(STAT_LIMIT));
}
