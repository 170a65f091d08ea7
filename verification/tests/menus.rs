use loot_forge::animation::{PlayerAnimation, PlayerAnimationState};
use loot_forge::crafting::{CraftingAffix, CraftingAffixKind, CraftingMaterial, CraftingMaterials};
use loot_forge::equipment::{Equipment, EquipmentSlot};
use loot_forge::inventory::{InventoryItem, RunInventory, SafeInventory, SAFE_INVENTORY_CAPACITY};
use loot_forge::menus::equipment::{
    equipment_menu_item, move_equipment_menu_item, shortcut_target, EquipmentItemKind,
};
use loot_forge::menus::inventory::{
    confirm_crafting_action, inventory_item, move_inventory_item, CraftingItemRef,
    CraftingSelection, InventoryKind,
};
use loot_forge::menus::{
    pause_key_closes_menu, pause_key_opens_pause_menu, settings_back_target, CraftingAction, Menu,
};
use loot_forge::messages::CollisionKind;
use loot_forge::rarity::ItemRarity;
use loot_forge::screens::Screen;
use loot_forge::text::append_decimal;
use loot_forge::wave::WaveState;

fn item(id: usize, rarity: ItemRarity) -> InventoryItem {
    InventoryItem::new(&format!("item_{id}"), rarity)
}

#[test]
fn crafting_actions_describe_themselves() {
    assert_eq!(CraftingAction::ALL.len(), 4);
    assert_eq!(CraftingAction::Reroll.title(), "Reroll");
    assert_eq!(CraftingAction::Add.material(), "Ember");
    assert_eq!(CraftingAction::Guarantee.material_kind(), CraftingMaterial::Essence);
    assert_eq!(CraftingAction::Improve.description(), "Safe quality upgrade");
    assert_eq!(CraftingAction::Reroll.preview(), "Replaces one unsealed affix.");
    assert_eq!(CraftingAction::Reroll.equipment_preview(), "Replaces one affix.");
    assert_eq!(
        CraftingAction::Guarantee.equipment_preview(),
        "Essence guarantees attack speed."
    );
}

#[test]
fn unavailable_reasons_name_what_blocks_crafting() {
    let mut materials = CraftingMaterials::starter();
    let mut common = item(1, ItemRarity::Common);
    assert_eq!(CraftingAction::Add.unavailable_reason(&common, &materials), Some("No open affix slot"));
    assert_eq!(CraftingAction::Reroll.unavailable_reason(&common, &materials), Some("No affix to reroll"));
    assert_eq!(
        CraftingAction::Guarantee.unavailable_reason(&common, &materials),
        Some("No craftable affix slot")
    );
    assert_eq!(CraftingAction::Improve.unavailable_reason(&common, &materials), None);
    common.quality = 20;
    assert_eq!(
        CraftingAction::Improve.unavailable_reason(&common, &materials),
        Some("Quality is already maxed")
    );
    assert!(materials.spend(CraftingMaterial::Ember, 999));
    let rare = item(2, ItemRarity::Rare);
    assert_eq!(CraftingAction::Add.unavailable_reason(&rare, &materials), Some("Missing material"));
}

#[test]
fn crafting_spends_material_only_when_it_changes_the_item() {
    let mut materials = CraftingMaterials::starter();
    let mut rare = item(1, ItemRarity::Rare);
    assert!(CraftingAction::Add.craft(&mut rare, &mut materials));
    assert_eq!(rare.affixes.len(), 1);
    assert_eq!(materials.amount(CraftingMaterial::Ember), 998);
    assert!(CraftingAction::Improve.apply(&mut rare));
    assert_eq!(rare.quality, 2);

    let mut common = item(2, ItemRarity::Common);
    assert!(!CraftingAction::Reroll.craft(&mut common, &mut materials));
    assert_eq!(materials.amount(CraftingMaterial::ReforgeOre), 999);
}

#[test]
fn inventory_menu_crafts_on_the_selected_item() {
    let mut run_inventory = RunInventory::default();
    let mut safe_inventory = SafeInventory::default();
    let mut materials = CraftingMaterials::starter();
    run_inventory.push(item(1, ItemRarity::Uncommon));
    safe_inventory.try_push(item(2, ItemRarity::Epic)).unwrap();

    let mut selection = CraftingSelection::default();
    assert_eq!(selection.action, CraftingAction::Improve);
    assert!(!confirm_crafting_action(&selection, &mut run_inventory, &mut safe_inventory, &mut materials));

    selection.item = Some(CraftingItemRef { kind: InventoryKind::Safe, index: 0 });
    selection.action = CraftingAction::Guarantee;
    assert!(confirm_crafting_action(&selection, &mut run_inventory, &mut safe_inventory, &mut materials));
    assert_eq!(safe_inventory.items()[0].affixes[0].kind, CraftingAffixKind::AttackSpeed);
    assert_eq!(materials.amount(CraftingMaterial::Essence), 998);
    assert!(run_inventory.items()[0].affixes.is_empty());

    selection.item = Some(CraftingItemRef { kind: InventoryKind::Run, index: 4 });
    assert!(!confirm_crafting_action(&selection, &mut run_inventory, &mut safe_inventory, &mut materials));
    assert_eq!(materials.amount(CraftingMaterial::Essence), 998);
}

#[test]
fn inventory_menu_moves_between_the_two_inventories() {
    assert_eq!(InventoryKind::Run.opposite(), InventoryKind::Safe);
    assert_eq!(InventoryKind::Safe.opposite().opposite(), InventoryKind::Safe);

    let mut run_inventory = RunInventory::default();
    let mut safe_inventory = SafeInventory::default();
    run_inventory.push(item(1, ItemRarity::Rare));
    assert!(!move_inventory_item(InventoryKind::Run, InventoryKind::Run, 0, &mut run_inventory, &mut safe_inventory));
    assert!(move_inventory_item(InventoryKind::Run, InventoryKind::Safe, 0, &mut run_inventory, &mut safe_inventory));
    assert_eq!(inventory_item(InventoryKind::Safe, 0, &run_inventory, &safe_inventory).unwrap().item_id, "item_1");
    assert!(inventory_item(InventoryKind::Run, 0, &run_inventory, &safe_inventory).is_none());
    assert!(move_inventory_item(InventoryKind::Safe, InventoryKind::Run, 0, &mut run_inventory, &mut safe_inventory));
    assert_eq!(run_inventory.items().len(), 1);
}

#[test]
fn equipment_menu_moves_and_crafts() {
    assert_eq!(
        shortcut_target(EquipmentItemKind::Safe),
        EquipmentItemKind::Equipment(EquipmentSlot::MainHand)
    );
    assert_eq!(
        shortcut_target(EquipmentItemKind::Equipment(EquipmentSlot::MainHand)),
        EquipmentItemKind::Safe
    );

    let mut safe_inventory = SafeInventory::default();
    let mut equipment = Equipment::default();
    let mut materials = CraftingMaterials::starter();
    safe_inventory.try_push(item(1, ItemRarity::Rare)).unwrap();
    assert!(!move_equipment_menu_item(
        EquipmentItemKind::Safe,
        EquipmentItemKind::Safe,
        0,
        &mut safe_inventory,
        &mut equipment,
    ));

    let mut selection = loot_forge::menus::equipment::CraftingSelection::default();
    selection.item_index = Some(0);
    selection.action = CraftingAction::Add;
    assert!(loot_forge::menus::equipment::confirm_crafting_action(&selection, &mut safe_inventory, &mut materials));
    assert_eq!(safe_inventory.items()[0].affixes.len(), 1);

    assert!(move_equipment_menu_item(
        EquipmentItemKind::Safe,
        EquipmentItemKind::Equipment(EquipmentSlot::MainHand),
        0,
        &mut safe_inventory,
        &mut equipment,
    ));
    assert_eq!(
        equipment_menu_item(EquipmentItemKind::Equipment(EquipmentSlot::MainHand), 0, &safe_inventory, &equipment)
            .unwrap()
            .item_id,
        "item_1"
    );
    assert!(equipment_menu_item(EquipmentItemKind::Safe, 0, &safe_inventory, &equipment).is_none());
    assert!(!loot_forge::menus::equipment::confirm_crafting_action(&selection, &mut safe_inventory, &mut materials));
    assert_eq!(materials.amount(CraftingMaterial::Ember), 998);
    assert!(move_equipment_menu_item(
        EquipmentItemKind::Equipment(EquipmentSlot::MainHand),
        EquipmentItemKind::Safe,
        0,
        &mut safe_inventory,
        &mut equipment,
    ));
    assert_eq!(safe_inventory.items().len(), 1);
    assert!(safe_inventory.items().len() <= SAFE_INVENTORY_CAPACITY);
}

#[test]
fn menu_keys_and_back_navigation() {
    assert!(pause_key_opens_pause_menu(Screen::Gameplay, Menu::Closed));
    assert!(!pause_key_opens_pause_menu(Screen::Title, Menu::Closed));
    assert!(!pause_key_opens_pause_menu(Screen::Gameplay, Menu::Pause));
    assert!(pause_key_closes_menu(Screen::Gameplay, Menu::Pause));
    assert!(pause_key_closes_menu(Screen::Gameplay, Menu::Inventory));
    assert!(!pause_key_closes_menu(Screen::Gameplay, Menu::MonsterBuff));
    assert!(!pause_key_closes_menu(Screen::Gameplay, Menu::GameOver));
    assert!(!pause_key_closes_menu(Screen::Gameplay, Menu::Closed));
    assert_eq!(settings_back_target(Screen::Title), Menu::Main);
    assert_eq!(settings_back_target(Screen::Gameplay), Menu::Pause);
    assert_eq!(Menu::default(), Menu::Closed);
    assert_eq!(Screen::default(), Screen::Splash);
    assert_eq!(CollisionKind::DamagePlayer, CollisionKind::DamagePlayer.clone());
}

#[test]
fn waves_advance_when_the_timer_runs_out() {
    let mut wave = WaveState::default();
    assert_eq!(wave.current_wave, 1);
    assert_eq!(wave.advance_wave_timer(false), None);
    assert_eq!(wave.current_wave, 1);
    assert_eq!(wave.advance_wave_timer(true), Some(Menu::MonsterBuff));
    assert_eq!(wave.current_wave, 2);
}

#[test]
fn walking_animation_cycles_through_four_frames() {
    let mut animation = PlayerAnimation::new();
    assert_eq!(animation.state(), PlayerAnimationState::Idling);
    animation.update_timer(true);
    assert_eq!(animation.frame(), 0);
    assert_eq!(PlayerAnimationState::Idling.interval_millis(), 500);

    assert!(animation.update_state(PlayerAnimationState::Walking));
    assert!(!animation.update_state(PlayerAnimationState::Walking));
    assert_eq!(PlayerAnimationState::Walking.frames(), 4);
    assert_eq!(PlayerAnimationState::Walking.interval_millis(), 50);
    animation.update_timer(true);
    animation.update_timer(true);
    assert_eq!(animation.frame(), 2);
    assert_eq!(animation.get_atlas_index(), 3);
    assert!(animation.plays_step_sound(true));
    assert!(!animation.plays_step_sound(false));
    animation.update_timer(false);
    animation.update_timer(true);
    animation.update_timer(true);
    assert_eq!(animation.frame(), 0);
    assert_eq!(animation.get_atlas_index(), 1);

    assert!(animation.update_state(PlayerAnimationState::Idling));
    assert_eq!(animation.get_atlas_index(), 0);
    let _ = PlayerAnimation::walking();
    let _ = PlayerAnimation::idling();
}

#[test]
fn numbers_render_in_decimal() {
    let mut out = String::new();
    append_decimal(&mut out, 0);
    out.push(' ');
    append_decimal(&mut out, 907);
    out.push(' ');
    append_decimal(&mut out, u64::MAX as u128);
    assert_eq!(out, format!("0 907 {}", u64::MAX));
    let affix = CraftingAffix { kind: CraftingAffixKind::Damage, tier: 4, value: 20 };
    assert_eq!(affix.label(), "T4 Damage +20%");
}
