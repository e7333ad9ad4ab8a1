use champ_build::aggregate::{
    apply_attack_speed_correction, display_stats, effective_stats, get_player,
    project_level_scaled_stats,
};
use champ_build::catalog::Catalog;
use champ_build::player::{add_item, remove_last_item, set_champion, set_item, Player};
use champ_build::stats::{Stat, Stats};

const POINT: i64 = 1_000_000;

fn stat(flat: i64, percent: i64, per_level: i64) -> Stat {
    Stat { flat, percent, per_level, percent_base: 0, percent_bonus: 0 }
}

fn catalog() -> Catalog {
    let mut c = Catalog::new();
    let mut ahri = Stats::new();
    ahri.armor = stat(20 * POINT, 0, 0);
    assert!(c.insert_champion("Ahri".to_string(), ahri));
    let mut cloth = Stats::new();
    cloth.armor = stat(10 * POINT, 0, 0);
    assert!(c.insert_item(1001, cloth));
    let mut dagger = Stats::new();
    dagger.attack_speed = stat(12 * POINT, 0, 0);
    dagger.attack_damage = stat(5 * POINT, 0, 0);
    assert!(c.insert_item(1042, dagger));
    c
}

#[test]
fn attack_speed_correction_moves_flat_into_percent() {
    let mut s = Stats::new();
    s.attack_speed = stat(10, 5, 0);
    apply_attack_speed_correction(&mut s);
    assert_eq!(s.attack_speed, stat(0, 15, 0));
}

#[test]
fn attack_speed_correction_leaves_zero_flat() {
    let mut s = Stats::new();
    s.attack_speed = stat(0, 5, 2);
    apply_attack_speed_correction(&mut s);
    assert_eq!(s.attack_speed, stat(0, 5, 2));
}

#[test]
fn effective_stats_corrects_merged_attack_speed() {
    let c = Catalog::new();
    let mut p = Player::new();
    p.stats.attack_speed = stat(10, 5, 0);
    let e = effective_stats(&p, &c);
    assert_eq!(e.attack_speed, stat(0, 15, 0));
}

#[test]
fn correction_applies_once_after_full_merge() {
    let c = catalog();
    let mut p = Player::new();
    p.base_stats.attack_speed = stat(625_000, 0, 2_500_000);
    assert_eq!(add_item(&mut p, 1042), Ok(0));
    assert_eq!(add_item(&mut p, 1042), Ok(1));
    let e = effective_stats(&p, &c);
    assert_eq!(e.attack_speed, stat(0, 625_000 + 24 * POINT, 2_500_000));
    assert_eq!(e.attack_damage, stat(10 * POINT, 0, 0));
}

#[test]
fn end_to_end_select_add_remove() {
    let c = catalog();
    let mut p = Player::new();
    assert!(set_champion(&mut p, &c, &"Ahri".to_string()).is_ok());
    assert_eq!(add_item(&mut p, 1001), Ok(0));
    assert_eq!(effective_stats(&p, &c).armor.flat, 30 * POINT);
    assert_eq!(remove_last_item(&mut p), Ok(0));
    assert_eq!(effective_stats(&p, &c).armor.flat, 20 * POINT);
}

#[test]
fn unknown_item_contributes_nothing() {
    let c = catalog();
    let mut p = Player::new();
    assert!(set_champion(&mut p, &c, &"Ahri".to_string()).is_ok());
    let before = effective_stats(&p, &c);
    assert_eq!(add_item(&mut p, 9999), Ok(0));
    assert_eq!(p.items, [9999, 0, 0, 0, 0, 0]);
    assert_eq!(effective_stats(&p, &c), before);
    let shown = get_player(&p, &c);
    assert_eq!(shown.stats, before);
    assert_eq!(shown.items, [9999, 0, 0, 0, 0, 0]);
}

#[test]
fn item_slot_order_does_not_matter() {
    let c = catalog();
    let mut p = Player::new();
    assert!(set_champion(&mut p, &c, &"Ahri".to_string()).is_ok());
    for (slot, id) in [(0usize, 1001u16), (2, 1042), (5, 1001)] {
        assert_eq!(set_item(&mut p, slot, id), Ok(()));
    }
    let first = effective_stats(&p, &c);
    let mut q = Player::new();
    assert!(set_champion(&mut q, &c, &"Ahri".to_string()).is_ok());
    for (slot, id) in [(1usize, 1001u16), (3, 1001), (4, 1042)] {
        assert_eq!(set_item(&mut q, slot, id), Ok(()));
    }
    assert_eq!(effective_stats(&q, &c), first);
    assert_eq!(first.armor.flat, 40 * POINT);
}

#[test]
fn get_player_reports_build_and_stats() {
    let c = catalog();
    let mut p = Player::new();
    assert!(set_champion(&mut p, &c, &"Ahri".to_string()).is_ok());
    assert_eq!(add_item(&mut p, 1001), Ok(0));
    let shown = get_player(&p, &c);
    assert_eq!(shown.champion, "Ahri");
    assert_eq!(shown.level, 1);
    assert_eq!(shown.skill_points, [0, 0, 0, 0]);
    assert_eq!(shown.items, [1001, 0, 0, 0, 0, 0]);
    assert_eq!(shown.stats.armor, stat(30 * POINT, 0, 0));
}

#[test]
fn level_one_shows_base_values() {
    let mut m = Stats::new();
    m.armor = stat(20 * POINT, 0, 4_200_000);
    m.health = stat(590 * POINT, 0, 104 * POINT);
    let shown = project_level_scaled_stats(&m, 1);
    assert_eq!(shown.armor, 20 * POINT);
    assert_eq!(shown.health_and_regen, (590 * POINT, 0));
}

#[test]
fn level_eighteen_growth() {
    // At level 18 the growth factor is 17 * (0.7025 + 0.0175 * 17) = 17.
    let mut m = Stats::new();
    m.armor = stat(20 * POINT, 0, 4_200_000);
    m.tenacity = stat(0, 5 * POINT, POINT);
    m.lethality = stat(18 * POINT, 0, 0);
    m.armor_penetration = stat(0, 30 * POINT, 0);
    m.magic_penetration = stat(8 * POINT, 40 * POINT, 0);
    let shown = project_level_scaled_stats(&m, 18);
    assert_eq!(shown.armor, 20 * POINT + 71_400_000);
    assert_eq!(shown.tenacity, 5 * POINT + 17 * POINT);
    assert_eq!(shown.armor_penetration_and_lethality, (30 * POINT, 18 * POINT));
    assert_eq!(shown.magic_penetration, (40 * POINT, 8 * POINT));
}

#[test]
fn level_two_growth_rounds_toward_zero() {
    // At level 2 the growth factor is 0.72.
    let mut m = Stats::new();
    m.armor = stat(0, 0, 4_200_000);
    m.attack_damage = stat(0, 0, -1);
    m.mana = stat(0, 0, 3);
    let shown = project_level_scaled_stats(&m, 2);
    assert_eq!(shown.armor, 3_024_000);
    assert_eq!(shown.attack_damage, 0);
    assert_eq!(shown.mana_and_regen, (2, 0));
}

#[test]
fn display_uses_effective_stats_and_level() {
    let c = catalog();
    let mut p = Player::new();
    assert!(set_champion(&mut p, &c, &"Ahri".to_string()).is_ok());
    assert_eq!(add_item(&mut p, 1001), Ok(0));
    p.base_stats.armor.per_level = 4_200_000;
    p.level = 18;
    let shown = display_stats(&p, &c);
    assert_eq!(shown.armor, 30 * POINT + 71_400_000);
}
