//! Player setup, appearance, equipment and direct inventory edits.

use vstd::prelude::*;
use crate::address::Address;
use crate::errors::ChainDepthError;
use crate::inventory::{add_error, added, copy_items, remove_error, removed, InventoryAccount, InventoryItem, MAX_INVENTORY_SLOTS};
use crate::items::TOOL;
use crate::player::{PlayerAccount, PlayerProfile, DEFAULT_SKIN_ID, MAX_DISPLAY_NAME_LEN};
use crate::presence::{RoomPresence, ACTIVITY_IDLE, NO_DIRECTION};
use crate::room::{START_X, START_Y};
use crate::season::GlobalAccount;

verus! {

/// Durability of the starter pickaxe.
pub const STARTER_PICKAXE_DURABILITY: u16 = 100;

/// A new player at the start room, with a fresh profile and presence there.
pub fn init_player(
    global: &GlobalAccount,
    actor: Address,
    player_bump: u8,
    profile_bump: u8,
    presence_bump: u8,
    base: &PlayerAccount,
) -> (r: (PlayerAccount, PlayerProfile, RoomPresence))
    ensures
        r.0 == (PlayerAccount {
            owner: actor,
            current_room_x: START_X,
            current_room_y: START_Y,
            active_jobs: r.0.active_jobs,
            jobs_completed: 0,
            chests_looted: 0,
            equipped_item_id: 0,
            season_seed: global.season_seed,
            bump: player_bump,
            ..*base
        }),
        r.0.active_jobs@.len() == 0,
        r.1.owner == actor && r.1.skin_id == DEFAULT_SKIN_ID && r.1.display_name@.len() == 0
            && !r.1.starter_pickaxe_granted && r.1.bump == profile_bump,
        r.2 == (RoomPresence {
            player: actor,
            season_seed: global.season_seed,
            room_x: START_X,
            room_y: START_Y,
            skin_id: DEFAULT_SKIN_ID,
            equipped_item_id: 0,
            activity: ACTIVITY_IDLE,
            activity_direction: NO_DIRECTION,
            is_current: true,
            bump: presence_bump,
        }),
{
    let player = PlayerAccount {
        owner: actor,
        current_room_x: START_X,
        current_room_y: START_Y,
        active_jobs: Vec::new(),
        jobs_completed: 0,
        chests_looted: 0,
        equipped_item_id: 0,
        total_score: base.total_score,
        current_run_start_slot: base.current_run_start_slot,
        runs_extracted: base.runs_extracted,
        last_extraction_slot: base.last_extraction_slot,
        in_dungeon: base.in_dungeon,
        current_hp: base.current_hp,
        max_hp: base.max_hp,
        data_version: base.data_version,
        season_seed: global.season_seed,
        bump: player_bump,
    };
    let profile = PlayerProfile {
        owner: actor,
        skin_id: DEFAULT_SKIN_ID,
        display_name: String::new(),
        starter_pickaxe_granted: false,
        bump: profile_bump,
    };
    let presence = RoomPresence {
        player: actor,
        season_seed: global.season_seed,
        room_x: START_X,
        room_y: START_Y,
        skin_id: DEFAULT_SKIN_ID,
        equipped_item_id: 0,
        activity: ACTIVITY_IDLE,
        activity_direction: NO_DIRECTION,
        is_current: true,
        bump: presence_bump,
    };
    (player, profile, presence)
}

/// Byte length of a display name, as `str::len` reports it.
pub open spec fn name_bytes(name: Seq<char>) -> int {
    vstd::utf8::encode_utf8(name).len() as usize as int
}

/// Why creating or updating a profile is refused, if it is.
pub open spec fn profile_error(profile: PlayerProfile, inventory: InventoryAccount, display_name: Seq<char>) -> Option<ChainDepthError> {
    let grants = profile.owner.is_zero_spec() || !profile.starter_pickaxe_granted;
    let items = if inventory.owner.is_zero_spec() { Seq::empty() } else { inventory.items@ };
    if name_bytes(display_name) > MAX_DISPLAY_NAME_LEN {
        Some(ChainDepthError::DisplayNameTooLong)
    } else if grants {
        add_error(items, MAX_INVENTORY_SLOTS as int, TOOL, 1, STARTER_PICKAXE_DURABILITY)
    } else {
        None
    }
}

/// Sets a player's skin and display name; the first time, grants the starter
/// pickaxe and equips it if nothing is equipped.
pub fn create_player_profile(
    profile: &mut PlayerProfile,
    inventory: &mut InventoryAccount,
    presence: &mut RoomPresence,
    player: &mut PlayerAccount,
    actor: Address,
    skin_id: u16,
    display_name: String,
    profile_bump: u8,
    inventory_bump: u8,
) -> (r: Result<(), ChainDepthError>)
    ensures
        r is Err <==> profile_error(*old(profile), *old(inventory), display_name@) is Some,
        r is Err ==> r == Err::<(), ChainDepthError>(profile_error(*old(profile), *old(inventory), display_name@)->0)
            && *final(profile) == *old(profile) && *final(inventory) == *old(inventory)
            && *final(presence) == *old(presence) && *final(player) == *old(player),
        r is Ok ==> {
            let grants = old(profile).owner.is_zero_spec() || !old(profile).starter_pickaxe_granted;
            let items = if old(inventory).owner.is_zero_spec() { Seq::empty() } else { old(inventory).items@ };
            &&& final(profile).skin_id == skin_id
            &&& final(profile).display_name@ == display_name@
            &&& final(profile).starter_pickaxe_granted
            &&& grants ==> final(inventory).items@ == added(items, TOOL, 1, STARTER_PICKAXE_DURABILITY)
            &&& !grants ==> final(inventory).items@ == items
            &&& final(player).equipped_item_id == if grants && old(player).equipped_item_id == 0 {
                TOOL
            } else {
                old(player).equipped_item_id
            }
            &&& final(presence).skin_id == skin_id
            &&& final(presence).equipped_item_id == final(player).equipped_item_id
        },
{
    let name_len = display_name.as_str().len();
    if name_len > MAX_DISPLAY_NAME_LEN {
        return Err(ChainDepthError::DisplayNameTooLong);
    }
    let fresh_profile = profile.owner.is_zero();
    let grants = fresh_profile || !profile.starter_pickaxe_granted;
    let fresh_inventory = inventory.owner.is_zero();
    let mut items: Vec<InventoryItem> = if fresh_inventory {
        Vec::new()
    } else {
        copy_items(&inventory.items)
    };
    if grants {
        match crate::inventory::add_stack(&mut items, MAX_INVENTORY_SLOTS, TOOL, 1, STARTER_PICKAXE_DURABILITY) {
            Ok(()) => {},
            Err(e) => {
                return Err(e);
            },
        }
    }
    if fresh_profile {
        profile.owner = actor;
        profile.bump = profile_bump;
    }
    if fresh_inventory {
        inventory.owner = actor;
        inventory.bump = inventory_bump;
    }
    inventory.items = items;
    profile.skin_id = skin_id;
    profile.display_name = display_name;
    if grants {
        profile.starter_pickaxe_granted = true;
        if player.equipped_item_id == 0 {
            player.equipped_item_id = TOOL;
        }
    }
    presence.skin_id = profile.skin_id;
    presence.equipped_item_id = player.equipped_item_id;
    Ok(())
}

/// Changes a player's skin on their profile and presence.
pub fn set_player_skin(profile: &mut PlayerProfile, presence: &mut RoomPresence, skin_id: u16)
    ensures
        *final(profile) == (PlayerProfile { skin_id, ..*old(profile) }),
        *final(presence) == (RoomPresence { skin_id, ..*old(presence) }),
{
    profile.skin_id = skin_id;
    presence.skin_id = skin_id;
}

/// The inventory holds a non-empty stack of `item_id`.
pub open spec fn holds_item(items: Seq<InventoryItem>, item_id: u16) -> bool {
    exists|i: int| 0 <= i < items.len() && (#[trigger] items[i]).item_id == item_id && items[i].amount > 0
}

/// Equips `item_id` (0 unequips); the player must hold some of it.
pub fn equip_item(
    player: &mut PlayerAccount,
    presence: &mut RoomPresence,
    inventory: &InventoryAccount,
    item_id: u16,
) -> (r: Result<(), ChainDepthError>)
    ensures
        item_id != 0 && !holds_item(inventory.items@, item_id) ==> r == Err::<(), ChainDepthError>(
            ChainDepthError::InsufficientItemAmount,
        ) && *final(player) == *old(player) && *final(presence) == *old(presence),
        item_id == 0 || holds_item(inventory.items@, item_id) ==> r is Ok
            && *final(player) == (PlayerAccount { equipped_item_id: item_id, ..*old(player) })
            && *final(presence) == (RoomPresence { equipped_item_id: item_id, ..*old(presence) }),
{
    if item_id != 0 {
        let mut found = false;
        let mut i: usize = 0;
        while i < inventory.items.len()
            invariant
                i <= inventory.items@.len(),
                found ==> holds_item(inventory.items@, item_id),
                !found ==> forall|k: int|
                    0 <= k < i ==> !((#[trigger] inventory.items@[k]).item_id == item_id
                        && inventory.items@[k].amount > 0),
            decreases inventory.items@.len() - i,
        {
            let it = inventory.items[i];
            if it.item_id == item_id && it.amount > 0 {
                assert(inventory.items@[i as int] == it);
                found = true;
            }
            i = i + 1;
        }
        if !found {
            return Err(ChainDepthError::InsufficientItemAmount);
        }
    }
    player.equipped_item_id = item_id;
    presence.equipped_item_id = item_id;
    Ok(())
}

/// Adds items to a player's inventory, claiming a blank inventory for them.
pub fn add_inventory_item(
    inventory: &mut InventoryAccount,
    actor: Address,
    item_id: u16,
    amount: u32,
    durability: u16,
    bump: u8,
) -> (r: Result<(), ChainDepthError>)
    ensures
        ({
            let items = if old(inventory).owner.is_zero_spec() { Seq::empty() } else { old(inventory).items@ };
            &&& r is Err <==> add_error(items, MAX_INVENTORY_SLOTS as int, item_id, amount, durability) is Some
            &&& r is Err ==> r == Err::<(), ChainDepthError>(
                add_error(items, MAX_INVENTORY_SLOTS as int, item_id, amount, durability)->0,
            ) && *final(inventory) == *old(inventory)
            &&& r is Ok ==> final(inventory).items@ == added(items, item_id, amount, durability)
        }),
{
    if item_id == 0 {
        return Err(ChainDepthError::InvalidItemId);
    }
    if amount == 0 {
        return Err(ChainDepthError::InvalidItemAmount);
    }
    if inventory.owner.is_zero() {
        let mut items: Vec<InventoryItem> = Vec::new();
        match crate::inventory::add_stack(&mut items, MAX_INVENTORY_SLOTS, item_id, amount, durability) {
            Ok(()) => {},
            Err(e) => {
                return Err(e);
            },
        }
        inventory.owner = actor;
        inventory.bump = bump;
        inventory.items = items;
        return Ok(());
    }
    inventory.add_item(item_id, amount, durability)
}

/// Removes items from a player's inventory.
pub fn remove_inventory_item(inventory: &mut InventoryAccount, item_id: u16, amount: u32) -> (r: Result<
    (),
    ChainDepthError,
>)
    ensures
        r is Err <==> remove_error(old(inventory).items@, item_id, amount) is Some,
        r is Err ==> r == Err::<(), ChainDepthError>(remove_error(old(inventory).items@, item_id, amount)->0)
            && *final(inventory) == *old(inventory),
        r is Ok ==> final(inventory).items@ == removed(old(inventory).items@, item_id, amount),
{
    inventory.remove_item(item_id, amount)
}

} // verus!
