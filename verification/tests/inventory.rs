use loot_forge::inventory::{
    move_run_item_to_safe, move_safe_item_to_run, InventoryItem, RunInventory, SafeInventory,
    SAFE_INVENTORY_CAPACITY,
};
use loot_forge::rarity::ItemRarity;

fn item(id: usize) -> InventoryItem {
    InventoryItem::new(&format!("item_{id}"), ItemRarity::Common)
}

#[test]
fn run_inventory_accepts_unbounded_items() {
    let mut inventory = RunInventory::default();

    for index in 0..(SAFE_INVENTORY_CAPACITY + 5) {
        inventory.push(item(index));
    }

    assert_eq!(inventory.items().len(), SAFE_INVENTORY_CAPACITY + 5);
}

#[test]
fn safe_inventory_rejects_items_after_capacity() {
    let mut inventory = SafeInventory::default();

    for index in 0..SAFE_INVENTORY_CAPACITY {
        assert!(inventory.try_push(item(index)).is_ok());
    }

    assert!(inventory.is_full());
    assert_eq!(
        inventory.try_push(item(100)).unwrap_err().item_id,
        "item_100"
    );
    assert_eq!(inventory.items().len(), SAFE_INVENTORY_CAPACITY);
}

#[test]
fn failed_safe_transfer_keeps_item_in_run_inventory() {
    let mut run_inventory = RunInventory::default();
    let mut safe_inventory = SafeInventory::default();

    run_inventory.push(item(100));
    for index in 0..SAFE_INVENTORY_CAPACITY {
        safe_inventory.try_push(item(index)).unwrap();
    }

    assert!(!move_run_item_to_safe(
        &mut run_inventory,
        &mut safe_inventory,
        0,
    ));
    assert_eq!(run_inventory.items()[0].item_id, "item_100");
    assert_eq!(safe_inventory.items().len(), SAFE_INVENTORY_CAPACITY);
}

#[test]
fn safe_to_run_transfer_is_unbounded() {
    let mut run_inventory = RunInventory::default();
    let mut safe_inventory = SafeInventory::default();

    safe_inventory.try_push(item(7)).unwrap();

    assert!(move_safe_item_to_run(
        &mut run_inventory,
        &mut safe_inventory,
        0,
    ));
    assert!(safe_inventory.items().is_empty());
    assert_eq!(run_inventory.items()[0].item_id, "item_7");
}

#[test]
fn transfers_move_items_without_losing_any() {
    let mut run_inventory = RunInventory::default();
    let mut safe_inventory = SafeInventory::default();
    for index in 0..3 {
        run_inventory.push(item(index));
    }

    assert!(move_run_item_to_safe(&mut run_inventory, &mut safe_inventory, 1));
    assert_eq!(run_inventory.items().len(), 2);
    assert_eq!(run_inventory.items()[0].item_id, "item_0");
    assert_eq!(run_inventory.items()[1].item_id, "item_2");
    assert_eq!(safe_inventory.items()[0].item_id, "item_1");

    assert!(!move_run_item_to_safe(&mut run_inventory, &mut safe_inventory, 5));
    assert!(!move_safe_item_to_run(&mut run_inventory, &mut safe_inventory, 3));
    assert_eq!(run_inventory.items().len() + safe_inventory.items().len(), 3);

    assert!(move_safe_item_to_run(&mut run_inventory, &mut safe_inventory, 0));
    assert_eq!(run_inventory.items()[2].item_id, "item_1");
    assert!(safe_inventory.items().is_empty());
}

#[test]
fn take_and_item_mut_address_positions() {
    let mut run_inventory = RunInventory::default();
    run_inventory.add_item("sword", ItemRarity::Epic);
    run_inventory.add_item("bow", ItemRarity::Rare);
    assert!(run_inventory.take(2).is_none());
    run_inventory.item_mut(1).unwrap().quality = 5;
    assert!(run_inventory.item_mut(2).is_none());
    let taken = run_inventory.take(1).unwrap();
    assert_eq!(taken.item_id, "bow");
    assert_eq!(taken.quality, 5);
    assert_eq!(run_inventory.items().len(), 1);
    run_inventory.clear();
    assert!(run_inventory.items().is_empty());

    let mut safe_inventory = SafeInventory::default();
    safe_inventory.try_push(item(3)).unwrap();
    safe_inventory.item_mut(0).unwrap().quality = 8;
    assert!(safe_inventory.item_mut(1).is_none());
    assert!(safe_inventory.take(1).is_none());
    assert_eq!(safe_inventory.take(0).unwrap().quality, 8);
    assert!(!safe_inventory.is_full());
}

#[test]
fn summary_counts_loot_by_rarity() {
    let mut run_inventory = RunInventory::default();
    assert_eq!(
        run_inventory.summary(),
        "Loot 0 | Common 0  Uncommon 0  Rare 0  Epic 0  Legendary 0  Mythic 0"
    );
    for _ in 0..12 {
        run_inventory.add_item("dagger", ItemRarity::Common);
    }
    run_inventory.add_item("axe", ItemRarity::Mythic);
    run_inventory.add_item("bow", ItemRarity::Rare);
    assert_eq!(
        run_inventory.summary(),
        "Loot 14 | Common 12  Uncommon 0  Rare 1  Epic 0  Legendary 0  Mythic 1"
    );
}

#[test]
fn items_compare_and_copy_field_by_field() {
    let mut first = item(1);
    let copy = first.clone();
    assert!(first.equals(&copy));
    assert_eq!(copy.item_id, "item_1");
    first.quality = 2;
    assert!(!first.equals(&copy));
    let duplicate = first.duplicate();
    assert!(duplicate.equals(&first));
    assert!(!item(1).equals(&item(2)));
}

#[test]
fn rarity_order_and_labels() {
    assert_eq!(ItemRarity::ALL.len(), 6);
    for (index, rarity) in ItemRarity::ALL.into_iter().enumerate() {
        assert_eq!(rarity.index(), index);
        assert_eq!(ItemRarity::from_index(index), rarity);
    }
    assert_eq!(ItemRarity::Legendary.label(), "Legendary");
}
