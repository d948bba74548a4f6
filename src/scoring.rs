//! Conversion of extracted loot and run duration into a final score.

use vstd::prelude::*;

verus! {

/// Slots per time-bonus unit during the first hour of a run (two minutes).
pub const TIME_BONUS_FIRST_HOUR_SLOT_STEP: u64 = 600;

/// Slots per time-bonus unit after the first hour of a run.
pub const TIME_BONUS_POST_HOUR_SLOT_STEP: u64 = 3000;

/// Length of the front-loaded window: one hour of slots, five per second.
pub const TIME_BONUS_FIRST_HOUR_SLOTS: u64 = 18000;

/// The loot score divided by this bounds the time bonus.
pub const TIME_BONUS_CAP_DIVISOR: u64 = 4;

/// The time bonus may always reach at least this much.
pub const TIME_BONUS_MIN_CAP: u64 = 5;

/// Unit value of each scored loot item; unknown items are worth nothing.
pub open spec fn unit_value(item_id: u16) -> u64 {
    if item_id == 200 { 1 }
    else if item_id == 201 { 3 }
    else if item_id == 202 { 8 }
    else if item_id == 203 { 12 }
    else if item_id == 204 { 10 }
    else if item_id == 205 { 9 }
    else if item_id == 206 { 9 }
    else if item_id == 207 { 20 }
    else if item_id == 208 { 2 }
    else if item_id == 209 { 15 }
    else if item_id == 210 { 11 }
    else if item_id == 211 { 4 }
    else if item_id == 212 { 7 }
    else if item_id == 213 { 14 }
    else if item_id == 214 { 0 }
    else if item_id == 215 { 13 }
    else if item_id == 216 { 3 }
    else if item_id == 217 { 8 }
    else if item_id == 218 { 18 }
    else if item_id == 219 { 16 }
    else { 0 }
}

/// Scored loot items occupy the id range 200..=299.
pub open spec fn scored_item(item_id: u16) -> bool {
    200 <= item_id <= 299
}

pub open spec fn min_int(a: int, b: int) -> int {
    if a <= b { a } else { b }
}

pub open spec fn max_int(a: int, b: int) -> int {
    if a >= b { a } else { b }
}

/// Front-loaded time bonus: one unit per 600 slots in the first 18000 slots,
/// one unit per 3000 slots after that, never above `max(loot / 4, 5)`.
pub open spec fn time_bonus(elapsed: int, loot_score: int) -> int {
    let first = min_int(elapsed, TIME_BONUS_FIRST_HOUR_SLOTS as int);
    let post = max_int(elapsed - TIME_BONUS_FIRST_HOUR_SLOTS as int, 0);
    let base = first / (TIME_BONUS_FIRST_HOUR_SLOT_STEP as int) + post
        / (TIME_BONUS_POST_HOUR_SLOT_STEP as int);
    let cap = max_int(loot_score / (TIME_BONUS_CAP_DIVISOR as int), TIME_BONUS_MIN_CAP as int);
    min_int(base, cap)
}

/// Score of one unit of an item.
pub fn score_value_for_item(item_id: u16) -> (r: u64)
    ensures
        r == unit_value(item_id),
{
    match item_id {
        200 => 1,
        201 => 3,
        202 => 8,
        203 => 12,
        204 => 10,
        205 => 9,
        206 => 9,
        207 => 20,
        208 => 2,
        209 => 15,
        210 => 11,
        211 => 4,
        212 => 7,
        213 => 14,
        214 => 0,
        215 => 13,
        216 => 3,
        217 => 8,
        218 => 18,
        219 => 16,
        _ => 0,
    }
}

/// Whether an item counts towards the loot score (and is lost on death).
pub fn is_scored_loot_item(item_id: u16) -> (r: bool)
    ensures
        r == scored_item(item_id),
{
    200 <= item_id && item_id <= 299
}

/// Time bonus for a run of `elapsed_slots` that extracted `loot_score`.
pub fn compute_time_bonus(elapsed_slots: u64, loot_score: u64) -> (r: u64)
    ensures
        r == time_bonus(elapsed_slots as int, loot_score as int),
{
    let first_hour_slots: u64 = if elapsed_slots < TIME_BONUS_FIRST_HOUR_SLOTS {
        elapsed_slots
    } else {
        TIME_BONUS_FIRST_HOUR_SLOTS
    };
    let post_hour_slots: u64 = if elapsed_slots > TIME_BONUS_FIRST_HOUR_SLOTS {
        elapsed_slots - TIME_BONUS_FIRST_HOUR_SLOTS
    } else {
        0
    };
    let base_time_bonus: u64 = first_hour_slots / TIME_BONUS_FIRST_HOUR_SLOT_STEP + post_hour_slots
        / TIME_BONUS_POST_HOUR_SLOT_STEP;
    let quarter: u64 = loot_score / TIME_BONUS_CAP_DIVISOR;
    let time_bonus_cap: u64 = if quarter > TIME_BONUS_MIN_CAP {
        quarter
    } else {
        TIME_BONUS_MIN_CAP
    };
    if base_time_bonus < time_bonus_cap {
        base_time_bonus
    } else {
        time_bonus_cap
    }
}

} // verus!
