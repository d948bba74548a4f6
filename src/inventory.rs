//! Item stacks carried in a run (inventory) or banked after extraction (storage).

use vstd::prelude::*;
use crate::address::Address;
use crate::errors::ChainDepthError;

verus! {

pub const MAX_INVENTORY_SLOTS: usize = 64;
pub const MAX_STORAGE_SLOTS: usize = 64;

/// A stack: `amount` units of `item_id` at `durability`.
#[derive(Clone, Copy, Debug, PartialEq, Eq, Structural)]
pub struct InventoryItem {
    pub item_id: u16,
    pub amount: u32,
    pub durability: u16,
}

/// Items a player carries.
#[derive(Clone, Debug)]
pub struct InventoryAccount {
    pub owner: Address,
    pub items: Vec<InventoryItem>,
    pub bump: u8,
}

/// Items a player has banked.
#[derive(Clone, Debug)]
pub struct StorageAccount {
    pub owner: Address,
    pub items: Vec<InventoryItem>,
    pub bump: u8,
}

/// Index of the first stack among the first `n` with this id and durability.
pub open spec fn first_stack(items: Seq<InventoryItem>, item_id: u16, durability: u16, n: nat) -> Option<
    int,
>
    decreases n,
{
    if n == 0 {
        None
    } else {
        match first_stack(items, item_id, durability, (n - 1) as nat) {
            Some(i) => Some(i),
            None => if items[n - 1].item_id == item_id && items[n - 1].durability == durability {
                Some(n - 1)
            } else {
                None
            },
        }
    }
}

pub open spec fn stack_of(items: Seq<InventoryItem>, item_id: u16, durability: u16) -> Option<int> {
    first_stack(items, item_id, durability, items.len())
}

/// Why adding to `items` (holding at most `cap` stacks) is refused, if it is.
pub open spec fn add_error(
    items: Seq<InventoryItem>,
    cap: int,
    item_id: u16,
    amount: u32,
    durability: u16,
) -> Option<ChainDepthError> {
    if item_id == 0 {
        Some(ChainDepthError::InvalidItemId)
    } else if amount == 0 {
        Some(ChainDepthError::InvalidItemAmount)
    } else {
        match stack_of(items, item_id, durability) {
            Some(i) => if items[i].amount + amount > u32::MAX {
                Some(ChainDepthError::Overflow)
            } else {
                None
            },
            None => if items.len() >= cap {
                Some(ChainDepthError::InventoryFull)
            } else {
                None
            },
        }
    }
}

/// `items` after adding: merged into the first matching stack, else a new stack.
pub open spec fn added(items: Seq<InventoryItem>, item_id: u16, amount: u32, durability: u16) -> Seq<
    InventoryItem,
> {
    match stack_of(items, item_id, durability) {
        Some(i) => items.update(
            i,
            InventoryItem { amount: (items[i].amount + amount) as u32, ..items[i] },
        ),
        None => items.push(InventoryItem { item_id, amount, durability }),
    }
}

/// Adds `amount` units of `item_id` at `durability` to a list of at most `cap` stacks.
pub fn add_stack(
    items: &mut Vec<InventoryItem>,
    cap: usize,
    item_id: u16,
    amount: u32,
    durability: u16,
) -> (r: Result<(), ChainDepthError>)
    ensures
        r is Err <==> add_error(old(items)@, cap as int, item_id, amount, durability) is Some,
        r is Err ==> r == Err::<(), ChainDepthError>(
            add_error(old(items)@, cap as int, item_id, amount, durability)->0,
        ) && *final(items) == *old(items),
        r is Ok ==> final(items)@ == added(old(items)@, item_id, amount, durability),
{
    if item_id == 0 {
        return Err(ChainDepthError::InvalidItemId);
    }
    if amount == 0 {
        return Err(ChainDepthError::InvalidItemAmount);
    }
    let mut i: usize = 0;
    while i < items.len()
        invariant
            i <= items@.len(),
            items@ == old(items)@,
            *items == *old(items),
            item_id != 0,
            amount != 0,
            first_stack(items@, item_id, durability, i as nat) is None,
        decreases items@.len() - i,
    {
        let it = items[i];
        if it.item_id == item_id && it.durability == durability {
            proof {
                assert(first_stack(items@, item_id, durability, (i + 1) as nat) == Some(i as int));
                lemma_stack_prefix(items@, item_id, durability, (i + 1) as nat);
            }
            if it.amount as u64 + amount as u64 > u32::MAX as u64 {
                return Err(ChainDepthError::Overflow);
            }
            items.set(i, InventoryItem { amount: it.amount + amount, ..it });
            return Ok(());
        }
        i = i + 1;
    }
    if items.len() >= cap {
        return Err(ChainDepthError::InventoryFull);
    }
    items.push(InventoryItem { item_id, amount, durability });
    Ok(())
}

/// Once a prefix holds a match, longer prefixes report the same one.
proof fn lemma_stack_prefix(items: Seq<InventoryItem>, item_id: u16, durability: u16, n: nat)
    requires
        n <= items.len(),
        first_stack(items, item_id, durability, n) is Some,
    ensures
        stack_of(items, item_id, durability) == first_stack(items, item_id, durability, n),
    decreases items.len() - n,
{
    if n < items.len() {
        assert(first_stack(items, item_id, durability, n + 1) == first_stack(
            items,
            item_id,
            durability,
            n,
        ));
        lemma_stack_prefix(items, item_id, durability, n + 1);
    }
}

/// Units of `item_id` in the first `n` stacks.
pub open spec fn units_upto(items: Seq<InventoryItem>, item_id: u16, n: int) -> int
    decreases n,
{
    if n <= 0 {
        0
    } else {
        units_upto(items, item_id, n - 1) + if items[n - 1].item_id == item_id {
            items[n - 1].amount as int
        } else {
            0
        }
    }
}

pub open spec fn clamp(v: int, lo: int, hi: int) -> int {
    if v < lo { lo } else if v > hi { hi } else { v }
}

/// Stack `i` after taking `amount` units of `item_id`, first stacks first.
pub open spec fn deducted(items: Seq<InventoryItem>, item_id: u16, amount: u32, i: int) -> InventoryItem {
    if items[i].item_id == item_id {
        let take = clamp(amount - units_upto(items, item_id, i), 0, items[i].amount as int);
        InventoryItem { amount: (items[i].amount - take) as u32, ..items[i] }
    } else {
        items[i]
    }
}

pub open spec fn nonempty_stack(it: InventoryItem) -> bool {
    it.amount > 0
}

/// `items` after removing `amount` units of `item_id`; empty stacks are dropped.
pub open spec fn removed(items: Seq<InventoryItem>, item_id: u16, amount: u32) -> Seq<InventoryItem> {
    Seq::new(items.len(), |i: int| deducted(items, item_id, amount, i)).filter(
        |it: InventoryItem| nonempty_stack(it),
    )
}

pub open spec fn remove_error(items: Seq<InventoryItem>, item_id: u16, amount: u32) -> Option<
    ChainDepthError,
> {
    if item_id == 0 {
        Some(ChainDepthError::InvalidItemId)
    } else if amount == 0 {
        Some(ChainDepthError::InvalidItemAmount)
    } else if units_upto(items, item_id, items.len() as int) < amount {
        Some(ChainDepthError::InsufficientItemAmount)
    } else {
        None
    }
}

proof fn lemma_units_nonneg(items: Seq<InventoryItem>, item_id: u16, j: int)
    requires
        0 <= j <= items.len(),
    ensures
        0 <= units_upto(items, item_id, j),
    decreases j,
{
    if j > 0 {
        lemma_units_nonneg(items, item_id, j - 1);
    }
}

proof fn lemma_units_monotone(items: Seq<InventoryItem>, item_id: u16, i: int, j: int)
    requires
        0 <= i <= j <= items.len(),
    ensures
        0 <= units_upto(items, item_id, i) <= units_upto(items, item_id, j),
    decreases j - i,
{
    lemma_units_nonneg(items, item_id, i);
    if i < j {
        lemma_units_monotone(items, item_id, i, j - 1);
    }
}

/// Takes `amount` units of `item_id` from the stacks in order, dropping stacks
/// that end up empty; refused if fewer units are held.
pub fn remove_units(items: &mut Vec<InventoryItem>, item_id: u16, amount: u32) -> (r: Result<
    (),
    ChainDepthError,
>)
    ensures
        r is Err <==> remove_error(old(items)@, item_id, amount) is Some,
        r is Err ==> r == Err::<(), ChainDepthError>(remove_error(old(items)@, item_id, amount)->0)
            && *final(items) == *old(items),
        r is Ok ==> final(items)@ == removed(old(items)@, item_id, amount),
{
    if item_id == 0 {
        return Err(ChainDepthError::InvalidItemId);
    }
    if amount == 0 {
        return Err(ChainDepthError::InvalidItemAmount);
    }
    let mut held: u64 = 0;
    let mut i: usize = 0;
    while i < items.len() && held < amount as u64
        invariant
            i <= items@.len(),
            held as int == units_upto(items@, item_id, i as int),
            held < amount as u64 + 0x1_0000_0000,
        decreases items@.len() - i,
    {
        if items[i].item_id == item_id {
            held = held + items[i].amount as u64;
        }
        i = i + 1;
    }
    proof {
        lemma_units_monotone(items@, item_id, i as int, items@.len() as int);
    }
    if held < amount as u64 {
        return Err(ChainDepthError::InsufficientItemAmount);
    }
    let ghost src = items@;
    let ghost full = Seq::new(src.len(), |k: int| deducted(src, item_id, amount, k));
    let mut kept: Vec<InventoryItem> = Vec::new();
    let mut remaining: u32 = amount;
    let mut j: usize = 0;
    while j < items.len()
        invariant
            j <= src.len(),
            items@ == src,
            full == Seq::new(src.len(), |k: int| deducted(src, item_id, amount, k)),
            remaining as int == clamp(amount - units_upto(src, item_id, j as int), 0, amount as int),
            kept@ == full.take(j as int).filter(|it: InventoryItem| nonempty_stack(it)),
        decreases src.len() - j,
    {
        let it = items[j];
        let mut next = it;
        proof {
            lemma_units_monotone(src, item_id, 0, j as int);
        }
        if it.item_id == item_id {
            let take: u32 = if remaining < it.amount { remaining } else { it.amount };
            next = InventoryItem { amount: it.amount - take, ..it };
            remaining = remaining - take;
        }
        proof {
            assert(next == full[j as int]);
            let t = full.take(j as int + 1);
            assert(t.drop_last() =~= full.take(j as int));
            reveal(Seq::filter);
        }
        if next.amount > 0 {
            kept.push(next);
        }
        j = j + 1;
    }
    assert(full.take(j as int) =~= full);
    *items = kept;
    Ok(())
}

/// A copy of `v`, stack for stack.
pub fn copy_items(v: &Vec<InventoryItem>) -> (r: Vec<InventoryItem>)
    ensures
        r@ == v@,
{
    let mut out: Vec<InventoryItem> = Vec::new();
    let mut i: usize = 0;
    while i < v.len()
        invariant
            i <= v@.len(),
            out@ == v@.take(i as int),
        decreases v@.len() - i,
    {
        out.push(v[i]);
        i = i + 1;
        assert(out@ =~= v@.take(i as int));
    }
    assert(v@.take(i as int) =~= v@);
    out
}

impl InventoryAccount {
    pub fn remove_item(&mut self, item_id: u16, amount: u32) -> (r: Result<(), ChainDepthError>)
        ensures
            r is Err <==> remove_error(old(self).items@, item_id, amount) is Some,
            r is Err ==> r == Err::<(), ChainDepthError>(
                remove_error(old(self).items@, item_id, amount)->0,
            ) && *final(self) == *old(self),
            r is Ok ==> final(self).items@ == removed(old(self).items@, item_id, amount),
            final(self).owner == old(self).owner,
            final(self).bump == old(self).bump,
    {
        remove_units(&mut self.items, item_id, amount)
    }

    pub fn add_item(&mut self, item_id: u16, amount: u32, durability: u16) -> (r: Result<
        (),
        ChainDepthError,
    >)
        ensures
            r is Err <==> add_error(
                old(self).items@,
                MAX_INVENTORY_SLOTS as int,
                item_id,
                amount,
                durability,
            ) is Some,
            r is Err ==> r == Err::<(), ChainDepthError>(
                add_error(
                    old(self).items@,
                    MAX_INVENTORY_SLOTS as int,
                    item_id,
                    amount,
                    durability,
                )->0,
            ) && *final(self) == *old(self),
            r is Ok ==> final(self).items@ == added(old(self).items@, item_id, amount, durability),
            final(self).owner == old(self).owner,
            final(self).bump == old(self).bump,
    {
        add_stack(&mut self.items, MAX_INVENTORY_SLOTS, item_id, amount, durability)
    }
}

impl StorageAccount {
    pub fn add_item(&mut self, item_id: u16, amount: u32, durability: u16) -> (r: Result<
        (),
        ChainDepthError,
    >)
        ensures
            r is Err <==> add_error(
                old(self).items@,
                MAX_STORAGE_SLOTS as int,
                item_id,
                amount,
                durability,
            ) is Some,
            r is Err ==> r == Err::<(), ChainDepthError>(
                add_error(
                    old(self).items@,
                    MAX_STORAGE_SLOTS as int,
                    item_id,
                    amount,
                    durability,
                )->0,
            ) && *final(self) == *old(self),
            r is Ok ==> final(self).items@ == added(old(self).items@, item_id, amount, durability),
            final(self).owner == old(self).owner,
            final(self).bump == old(self).bump,
    {
        add_stack(&mut self.items, MAX_STORAGE_SLOTS, item_id, amount, durability)
    }
}

} // verus!
