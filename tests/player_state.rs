use champ_build::catalog::Catalog;
use champ_build::player::{
    add_item, change_skill_point, get_current_champion, remove_last_item, set_champion, set_item,
    Direction, Player, PlayerError,
};
use champ_build::stats::{Stat, Stats};

#[test]
fn new_player_defaults() {
    let p = Player::new();
    assert_eq!(p.level, 1);
    assert_eq!(p.skill_points, [0, 0, 0, 0]);
    assert_eq!(p.items, [0; 6]);
    assert_eq!(p.champ, "none");
    assert_eq!(p.base_stats, Stats::new());
    assert_eq!(p.stats, Stats::new());
    assert_eq!(Player::create_player().champ, "none");
    assert_eq!(Player::default().items, [0; 6]);
}

#[test]
fn add_item_fills_slots_in_order_then_reports_full() {
    let mut p = Player::new();
    for k in 0..6usize {
        assert_eq!(add_item(&mut p, 1000 + k as u16), Ok(k));
    }
    assert_eq!(p.items, [1000, 1001, 1002, 1003, 1004, 1005]);
    assert_eq!(add_item(&mut p, 3078), Err(PlayerError::InventoryFull));
    assert_eq!(p.items, [1000, 1001, 1002, 1003, 1004, 1005]);
}

#[test]
fn add_item_takes_lowest_empty_slot() {
    let mut p = Player::new();
    p.items = [7, 0, 9, 0, 0, 4];
    assert_eq!(add_item(&mut p, 55), Ok(1));
    assert_eq!(p.items, [7, 55, 9, 0, 0, 4]);
    assert_eq!(add_item(&mut p, 56), Ok(3));
    assert_eq!(p.items, [7, 55, 9, 56, 0, 4]);
}

#[test]
fn remove_last_item_clears_highest_occupied_slot() {
    let mut p = Player::new();
    p.items = [1001, 1002, 0, 0, 0, 0];
    assert_eq!(remove_last_item(&mut p), Ok(1));
    assert_eq!(p.items, [1001, 0, 0, 0, 0, 0]);
}

#[test]
fn remove_last_item_skips_gaps() {
    let mut p = Player::new();
    p.items = [0, 5, 0, 6, 0, 0];
    assert_eq!(remove_last_item(&mut p), Ok(3));
    assert_eq!(p.items, [0, 5, 0, 0, 0, 0]);
}

#[test]
fn remove_last_item_on_empty_inventory() {
    let mut p = Player::new();
    assert_eq!(remove_last_item(&mut p), Err(PlayerError::InventoryEmpty));
    assert_eq!(p.items, [0; 6]);
}

#[test]
fn set_item_out_of_range_changes_nothing() {
    let mut p = Player::new();
    p.items = [1, 2, 3, 0, 0, 0];
    assert_eq!(set_item(&mut p, 6, 3078), Err(PlayerError::IndexOutOfRange));
    assert_eq!(p.items, [1, 2, 3, 0, 0, 0]);
    assert_eq!(set_item(&mut p, usize::MAX, 3078), Err(PlayerError::IndexOutOfRange));
    assert_eq!(p.items, [1, 2, 3, 0, 0, 0]);
}

#[test]
fn set_item_overwrites_and_clears() {
    let mut p = Player::new();
    p.items = [1, 2, 3, 0, 0, 0];
    assert_eq!(set_item(&mut p, 1, 3078), Ok(()));
    assert_eq!(p.items, [1, 3078, 3, 0, 0, 0]);
    assert_eq!(set_item(&mut p, 0, 0), Ok(()));
    assert_eq!(p.items, [0, 3078, 3, 0, 0, 0]);
    assert_eq!(set_item(&mut p, 5, 9), Ok(()));
    assert_eq!(p.items, [0, 3078, 3, 0, 0, 9]);
}

#[test]
fn skill_point_passive_index_is_refused() {
    let mut p = Player::new();
    assert_eq!(change_skill_point(&mut p, 0, Direction::Increase), Err(PlayerError::IndexOutOfRange));
    assert_eq!(change_skill_point(&mut p, 4, Direction::Increase), Err(PlayerError::IndexOutOfRange));
    assert_eq!(p.skill_points, [0, 0, 0, 0]);
}

#[test]
fn skill_point_increase_and_decrease() {
    let mut p = Player::new();
    assert_eq!(change_skill_point(&mut p, 1, Direction::Increase), Ok(1));
    assert_eq!(change_skill_point(&mut p, 1, Direction::Increase), Ok(2));
    assert_eq!(change_skill_point(&mut p, 3, Direction::Increase), Ok(1));
    assert_eq!(p.skill_points, [0, 2, 0, 1]);
    assert_eq!(change_skill_point(&mut p, 1, Direction::Decrease), Ok(1));
    assert_eq!(p.skill_points, [0, 1, 0, 1]);
}

#[test]
fn skill_point_decrease_at_zero_is_refused() {
    let mut p = Player::new();
    assert_eq!(change_skill_point(&mut p, 2, Direction::Decrease), Err(PlayerError::AlreadyZero));
    assert_eq!(p.skill_points, [0, 0, 0, 0]);
}

#[test]
fn skill_point_increase_stays_at_maximum() {
    let mut p = Player::new();
    p.skill_points = [0, 0, 255, 0];
    assert_eq!(change_skill_point(&mut p, 2, Direction::Increase), Ok(255));
    assert_eq!(p.skill_points, [0, 0, 255, 0]);
}

#[test]
fn direction_words() {
    assert_eq!(Direction::parse("inc"), Some(Direction::Increase));
    assert_eq!(Direction::parse("dec"), Some(Direction::Decrease));
    assert_eq!(Direction::parse("up"), None);
    assert_eq!(Direction::parse(""), None);
}

#[test]
fn set_champion_found_and_missing() {
    let mut catalog = Catalog::new();
    let mut ahri = Stats::new();
    ahri.armor = Stat { flat: 20_000_000, percent: 0, per_level: 4_200_000, percent_base: 0, percent_bonus: 0 };
    assert!(catalog.insert_champion("Ahri".to_string(), ahri));

    let mut p = Player::new();
    assert_eq!(set_champion(&mut p, &catalog, &"Zed".to_string()), Err(PlayerError::NotFound));
    assert_eq!(p.champ, "none");
    assert_eq!(p.base_stats, Stats::new());

    assert_eq!(set_champion(&mut p, &catalog, &"Ahri".to_string()), Ok(ahri));
    assert_eq!(p.champ, "Ahri");
    assert_eq!(p.base_stats, ahri);
    assert_eq!(get_current_champion(&p), "Ahri");
}
