//! The between-wave inventory menu: moving items between the run and the safe
//! inventory, and crafting on either.

use vstd::prelude::*;

use super::CraftingAction;
use crate::crafting::CraftingMaterials;
use crate::inventory::{
    move_run_item_to_safe, move_safe_item_to_run, InventoryItem, RunInventory, SafeInventory,
    SAFE_INVENTORY_CAPACITY,
};

verus! {

/// The two inventories the menu shows.
#[derive(Debug, Clone, Copy, PartialEq, Eq, Hash, Structural)]
pub enum InventoryKind {
    Run,
    Safe,
}

impl InventoryKind {
    /// The other inventory: where the secondary button sends an item.
    pub fn opposite(self) -> (r: InventoryKind)
        ensures
            r == self.opposite_spec(),
            r != self,
            r.opposite_spec() == self,
    {
        match self {
            InventoryKind::Run => InventoryKind::Safe,
            InventoryKind::Safe => InventoryKind::Run,
        }
    }
}

/// An item of the menu: which inventory and which position in it.
#[derive(Debug, Clone, Copy, PartialEq, Eq, Structural)]
pub struct CraftingItemRef {
    pub kind: InventoryKind,
    pub index: usize,
}

/// The item and action chosen at the inventory workbench.
#[derive(Debug, Clone, Copy, PartialEq, Eq, Structural)]
pub struct CraftingSelection {
    pub item: Option<CraftingItemRef>,
    pub action: CraftingAction,
}

impl Default for CraftingSelection {
    fn default() -> (r: CraftingSelection)
        ensures
            r.item is None,
            r.action == CraftingAction::Improve,
    {
        CraftingSelection { item: None, action: CraftingAction::Improve }
    }
}

/// The items of one of the inventories.
pub open spec fn items_of(
    kind: InventoryKind,
    run_inventory: RunInventory,
    safe_inventory: SafeInventory,
) -> Seq<InventoryItem> {
    match kind {
        InventoryKind::Run => run_inventory@,
        InventoryKind::Safe => safe_inventory@,
    }
}

/// The item at `index` of the inventory `kind`, if there is one.
pub fn inventory_item<'a>(
    kind: InventoryKind,
    index: usize,
    run_inventory: &'a RunInventory,
    safe_inventory: &'a SafeInventory,
) -> (r: Option<&'a InventoryItem>)
    ensures
        r is Some <==> index < items_of(kind, *run_inventory, *safe_inventory).len(),
        r matches Some(item) ==> *item == items_of(kind, *run_inventory, *safe_inventory)[index as int],
{
    let items = match kind {
        InventoryKind::Run => run_inventory.items(),
        InventoryKind::Safe => safe_inventory.items(),
    };
    if index < items.len() {
        Some(&items[index])
    } else {
        None
    }
}

/// Moves the item at `index` of `source` to the end of `target`. Only moves
/// between the two different inventories happen, and a full safe inventory
/// takes nothing.
pub fn move_inventory_item(
    source: InventoryKind,
    target: InventoryKind,
    index: usize,
    run_inventory: &mut RunInventory,
    safe_inventory: &mut SafeInventory,
) -> (r: bool)
    ensures
        source == target ==> !r,
        r == (source != target && index < items_of(source, *old(run_inventory), *old(safe_inventory)).len()
            && (target == InventoryKind::Safe ==> old(safe_inventory)@.len() < SAFE_INVENTORY_CAPACITY)),
        r && source == InventoryKind::Run ==> final(run_inventory)@ == old(run_inventory)@.remove(index as int)
            && final(safe_inventory)@ == old(safe_inventory)@.push(old(run_inventory)@[index as int]),
        r && source == InventoryKind::Safe ==> final(safe_inventory)@ == old(safe_inventory)@.remove(index as int)
            && final(run_inventory)@ == old(run_inventory)@.push(old(safe_inventory)@[index as int]),
        !r ==> final(run_inventory)@ == old(run_inventory)@ && final(safe_inventory)@ == old(safe_inventory)@,
        final(run_inventory)@.to_multiset().add(final(safe_inventory)@.to_multiset()) == old(
            run_inventory,
        )@.to_multiset().add(old(safe_inventory)@.to_multiset()),
{
    match (source, target) {
        (InventoryKind::Run, InventoryKind::Safe) => move_run_item_to_safe(
            run_inventory,
            safe_inventory,
            index,
        ),
        (InventoryKind::Safe, InventoryKind::Run) => move_safe_item_to_run(
            run_inventory,
            safe_inventory,
            index,
        ),
        _ => false,
    }
}

/// Takes the selected action on the selected item, paying one unit of its
/// material; nothing changes when no item is selected, the selected position
/// holds no item, or the action is unavailable.
pub fn confirm_crafting_action(
    selection: &CraftingSelection,
    run_inventory: &mut RunInventory,
    safe_inventory: &mut SafeInventory,
    materials: &mut CraftingMaterials,
) -> (r: bool)
    ensures
        r == (selection.item matches Some(item_ref) && item_ref.index < items_of(
            item_ref.kind,
            *old(run_inventory),
            *old(safe_inventory),
        ).len() && selection.action.blocked_reason(
            items_of(item_ref.kind, *old(run_inventory), *old(safe_inventory))[item_ref.index as int],
            *old(materials),
        ) is None),
        r ==> final(materials).stack_amounts() == old(materials).stack_amounts().update(
            selection.action.cost_material().slot() as int,
            (old(materials).amount_of(selection.action.cost_material()) - 1) as u32,
        ),
        r ==> ({
            let item_ref = selection.item.unwrap();
            let i = item_ref.index as int;
            let before = items_of(item_ref.kind, *old(run_inventory), *old(safe_inventory));
            let after = items_of(item_ref.kind, *final(run_inventory), *final(safe_inventory));
            &&& after == before.update(i, after[i])
            &&& selection.action.crafted(before[i], after[i])
            &&& before[i].well_crafted() ==> after[i].well_crafted()
            &&& items_of(item_ref.kind.opposite_spec(), *final(run_inventory), *final(safe_inventory))
                == items_of(item_ref.kind.opposite_spec(), *old(run_inventory), *old(safe_inventory))
        }),
        !r ==> *final(materials) == *old(materials) && final(run_inventory)@ == old(run_inventory)@
            && final(safe_inventory)@ == old(safe_inventory)@,
{
    let item_ref = match selection.item {
        Some(item_ref) => item_ref,
        None => return false,
    };
    let action = selection.action;
    match item_ref.kind {
        InventoryKind::Run => match run_inventory.item_mut(item_ref.index) {
            Some(item) => action.craft(item, materials),
            None => false,
        },
        InventoryKind::Safe => match safe_inventory.item_mut(item_ref.index) {
            Some(item) => action.craft(item, materials),
            None => false,
        },
    }
}

impl InventoryKind {
    pub open spec fn opposite_spec(self) -> InventoryKind {
        match self {
            InventoryKind::Run => InventoryKind::Safe,
            InventoryKind::Safe => InventoryKind::Run,
        }
    }
}

} // verus!
