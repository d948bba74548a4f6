use chaindepth::address::Address;
use chaindepth::errors::ChainDepthError;
use chaindepth::inventory::{InventoryAccount, InventoryItem, StorageAccount};

fn item(item_id: u16, amount: u32, durability: u16) -> InventoryItem {
    InventoryItem { item_id, amount, durability }
}

#[test]
fn stacks_merge_by_id_and_durability() {
    let mut inv = InventoryAccount { owner: Address::zero(), items: Vec::new(), bump: 0 };
    inv.add_item(5, 3, 0).unwrap();
    inv.add_item(5, 4, 0).unwrap();
    inv.add_item(5, 1, 9).unwrap();
    assert_eq!(inv.items, vec![item(5, 7, 0), item(5, 1, 9)]);
    assert_eq!(inv.add_item(0, 1, 0).unwrap_err(), ChainDepthError::InvalidItemId);
    assert_eq!(inv.add_item(5, 0, 0).unwrap_err(), ChainDepthError::InvalidItemAmount);
    assert_eq!(inv.add_item(5, u32::MAX, 0).unwrap_err(), ChainDepthError::Overflow);
    assert_eq!(inv.items, vec![item(5, 7, 0), item(5, 1, 9)]);
}

#[test]
fn inventory_fills_up_at_sixty_four_stacks() {
    let mut inv = InventoryAccount { owner: Address::zero(), items: Vec::new(), bump: 0 };
    for id in 1u16..=64 {
        inv.add_item(id, 1, 0).unwrap();
    }
    assert_eq!(inv.add_item(65, 1, 0).unwrap_err(), ChainDepthError::InventoryFull);
    inv.add_item(64, 1, 0).unwrap();
    let mut storage = StorageAccount { owner: Address::zero(), items: inv.items.clone(), bump: 0 };
    assert_eq!(storage.add_item(99, 1, 0).unwrap_err(), ChainDepthError::InventoryFull);
}

#[test]
fn removal_takes_from_first_stacks_and_drops_empty_ones() {
    let mut inv = InventoryAccount {
        owner: Address::zero(),
        items: vec![item(7, 2, 0), item(8, 5, 0), item(7, 3, 1), item(9, 0, 0)],
        bump: 0,
    };
    assert_eq!(inv.remove_item(7, 6).unwrap_err(), ChainDepthError::InsufficientItemAmount);
    assert_eq!(inv.items.len(), 4);
    inv.remove_item(7, 4).unwrap();
    assert_eq!(inv.items, vec![item(8, 5, 0), item(7, 1, 1)]);
}
