use chaindepth::scoring::{compute_time_bonus, is_scored_loot_item, score_value_for_item};

#[test]
fn time_bonus_front_loaded_then_hard_diminish() {
    let loot_score = 200;
    let fifty_nine_minutes_slots = 59 * 60 * 5;
    let sixty_five_minutes_slots = 65 * 60 * 5;

    let first_bonus = compute_time_bonus(fifty_nine_minutes_slots, loot_score);
    let later_bonus = compute_time_bonus(sixty_five_minutes_slots, loot_score);

    assert!(first_bonus >= 29);
    assert_eq!(later_bonus, 30);
}

#[test]
fn time_bonus_respects_loot_cap() {
    let long_elapsed_slots = 6 * 60 * 60 * 5;
    let low_loot_score = 8;
    let time_bonus = compute_time_bonus(long_elapsed_slots, low_loot_score);
    assert_eq!(time_bonus, 5);
}

#[test]
fn time_bonus_exact_values() {
    assert_eq!(compute_time_bonus(0, 1000), 0);
    assert_eq!(compute_time_bonus(59 * 60 * 5, 200), 29);
    assert_eq!(compute_time_bonus(18000 + 3000 * 4, 1000), 34);
    assert_eq!(compute_time_bonus(u64::MAX, u64::MAX), 6148914691236541);
}

#[test]
fn scored_items_and_values() {
    assert!(is_scored_loot_item(200));
    assert!(is_scored_loot_item(299));
    assert!(!is_scored_loot_item(199));
    assert!(!is_scored_loot_item(300));
    assert_eq!(score_value_for_item(207), 20);
    assert_eq!(score_value_for_item(214), 0);
    assert_eq!(score_value_for_item(250), 0);
    assert_eq!(score_value_for_item(1), 0);
}
