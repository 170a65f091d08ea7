//! The between-wave equipment menu: equipping safe items, putting them back,
//! and crafting on safe items.

use vstd::prelude::*;

use super::CraftingAction;
use crate::crafting::CraftingMaterials;
use crate::equipment::{
    move_equipment_item_to_safe, move_safe_item_to_equipment, slot_contents, Equipment,
    EquipmentSlot,
};
use crate::inventory::{InventoryItem, SafeInventory, SAFE_INVENTORY_CAPACITY};

verus! {

/// Where an item of the equipment menu sits.
#[derive(Debug, Clone, Copy, PartialEq, Eq, Hash, Structural)]
pub enum EquipmentItemKind {
    Safe,
    Equipment(EquipmentSlot),
}

/// Where the secondary button sends an item: safe items to the main hand,
/// equipped items back to the safe inventory.
pub fn shortcut_target(kind: EquipmentItemKind) -> (r: EquipmentItemKind)
    ensures
        kind == EquipmentItemKind::Safe ==> r == EquipmentItemKind::Equipment(EquipmentSlot::MainHand),
        kind != EquipmentItemKind::Safe ==> r == EquipmentItemKind::Safe,
{
    match kind {
        EquipmentItemKind::Safe => EquipmentItemKind::Equipment(EquipmentSlot::MainHand),
        EquipmentItemKind::Equipment(_) => EquipmentItemKind::Safe,
    }
}

/// The safe item and action chosen at the equipment workbench.
#[derive(Debug, Clone, Copy, PartialEq, Eq, Structural)]
pub struct CraftingSelection {
    pub item_index: Option<usize>,
    pub action: CraftingAction,
}

impl Default for CraftingSelection {
    fn default() -> (r: CraftingSelection)
        ensures
            r.item_index is None,
            r.action == CraftingAction::Improve,
    {
        CraftingSelection { item_index: None, action: CraftingAction::Improve }
    }
}

/// The item shown at a place of the equipment menu, if there is one.
pub fn equipment_menu_item<'a>(
    kind: EquipmentItemKind,
    index: usize,
    safe_inventory: &'a SafeInventory,
    equipment: &'a Equipment,
) -> (r: Option<&'a InventoryItem>)
    ensures
        kind == EquipmentItemKind::Safe ==> (r is Some <==> index < safe_inventory@.len()) && (r matches Some(
            item,
        ) ==> *item == safe_inventory@[index as int]),
        kind matches EquipmentItemKind::Equipment(slot) ==> (r is Some <==> equipment.equipped(
            slot,
        ) is Some) && (r matches Some(item) ==> *item == equipment.equipped(slot).unwrap()),
{
    match kind {
        EquipmentItemKind::Safe => {
            let items = safe_inventory.items();
            if index < items.len() {
                Some(&items[index])
            } else {
                None
            }
        },
        EquipmentItemKind::Equipment(slot) => equipment.item(slot),
    }
}

/// Moves an item between the safe inventory and an equipment slot; other
/// combinations move nothing.
pub fn move_equipment_menu_item(
    source: EquipmentItemKind,
    target: EquipmentItemKind,
    index: usize,
    safe_inventory: &mut SafeInventory,
    equipment: &mut Equipment,
) -> (r: bool)
    ensures
        source is Safe && target is Equipment ==> ({
            let slot = target->Equipment_0;
            &&& r == (index < old(safe_inventory)@.len())
            &&& r ==> final(equipment).equipped(slot) == Some(old(safe_inventory)@[index as int])
                && final(safe_inventory)@ == old(safe_inventory)@.remove(index as int)
                + slot_contents(*old(equipment), slot)
        }),
        source is Equipment && target is Safe ==> ({
            let slot = source->Equipment_0;
            &&& r == (old(safe_inventory)@.len() < SAFE_INVENTORY_CAPACITY
                && old(equipment).equipped(slot) is Some)
            &&& r ==> final(equipment).equipped(slot) is None && final(safe_inventory)@
                == old(safe_inventory)@.push(old(equipment).equipped(slot).unwrap())
        }),
        (source is Safe && target is Safe) || (source is Equipment && target is Equipment) ==> !r,
        !r ==> final(safe_inventory)@ == old(safe_inventory)@ && final(equipment).equipped(
            EquipmentSlot::MainHand,
        ) == old(equipment).equipped(EquipmentSlot::MainHand),
        final(equipment).synced(EquipmentSlot::MainHand) == old(equipment).synced(
            EquipmentSlot::MainHand,
        ),
        final(equipment).base_weapon() == old(equipment).base_weapon(),
        final(safe_inventory)@.to_multiset().add(
            slot_contents(*final(equipment), EquipmentSlot::MainHand).to_multiset(),
        ) == old(safe_inventory)@.to_multiset().add(
            slot_contents(*old(equipment), EquipmentSlot::MainHand).to_multiset(),
        ),
{
    match (source, target) {
        (EquipmentItemKind::Safe, EquipmentItemKind::Equipment(slot)) => {
            move_safe_item_to_equipment(safe_inventory, equipment, index, slot)
        },
        (EquipmentItemKind::Equipment(slot), EquipmentItemKind::Safe) => {
            move_equipment_item_to_safe(equipment, safe_inventory, slot)
        },
        _ => false,
    }
}

/// Takes the selected action on the selected safe item, paying one unit of
/// its material; nothing changes when no item is selected, the position holds
/// no item, or the action is unavailable.
pub fn confirm_crafting_action(
    selection: &CraftingSelection,
    safe_inventory: &mut SafeInventory,
    materials: &mut CraftingMaterials,
) -> (r: bool)
    ensures
        r == (selection.item_index matches Some(i) && i < old(safe_inventory)@.len()
            && selection.action.blocked_reason(old(safe_inventory)@[i as int], *old(materials)) is None),
        r ==> final(materials).stack_amounts() == old(materials).stack_amounts().update(
            selection.action.cost_material().slot() as int,
            (old(materials).amount_of(selection.action.cost_material()) - 1) as u32,
        ),
        r ==> ({
            let i = selection.item_index.unwrap() as int;
            let before = old(safe_inventory)@;
            let after = final(safe_inventory)@;
            &&& after == before.update(i, after[i])
            &&& selection.action.crafted(before[i], after[i])
            &&& before[i].well_crafted() ==> after[i].well_crafted()
        }),
        !r ==> *final(materials) == *old(materials) && final(safe_inventory)@ == old(safe_inventory)@,
{
    let index = match selection.item_index {
        Some(index) => index,
        None => return false,
    };
    match safe_inventory.item_mut(index) {
        Some(item) => selection.action.craft(item, materials),
        None => false,
    }
}

} // verus!
