use loot_forge::crafting::{CraftingAffix, CraftingAffixKind, CraftingMaterial, CraftingMaterials};
use loot_forge::equipment::EquippedAttributeTotals;
use loot_forge::inventory::InventoryItem;
use loot_forge::menus::panels::{
    craft_button_reason, display_name, equipment_crafting_preview, inventory_crafting_preview,
    material_cost_text, quality_text, run_inventory_title, safe_inventory_title, stat_lines,
    tooltip_detail_lines,
};
use loot_forge::menus::CraftingAction;
use loot_forge::rarity::ItemRarity;

#[test]
fn action_cards_show_material_stock() {
    let mut materials = CraftingMaterials::starter();
    assert_eq!(material_cost_text(CraftingAction::Reroll, &materials), "Reforge Ore 999/1");
    assert!(materials.spend(CraftingMaterial::Whetstone, 989));
    assert_eq!(material_cost_text(CraftingAction::Improve, &materials), "Whetstone 10/1");
}

#[test]
fn previews_and_button_reasons_follow_the_selection() {
    let materials = CraftingMaterials::starter();
    assert_eq!(
        inventory_crafting_preview(CraftingAction::Guarantee, true),
        "Essence guarantees the affix family."
    );
    assert_eq!(
        equipment_crafting_preview(CraftingAction::Guarantee, true),
        "Essence guarantees attack speed."
    );
    assert_eq!(
        inventory_crafting_preview(CraftingAction::Add, false),
        "Select a weapon before crafting."
    );
    assert_eq!(
        craft_button_reason(CraftingAction::Add, None, &materials),
        Some("Select a weapon")
    );
    let item = InventoryItem::new("bow", ItemRarity::Rare);
    assert_eq!(craft_button_reason(CraftingAction::Add, Some(&item), &materials), None);
    assert_eq!(
        craft_button_reason(CraftingAction::Reroll, Some(&item), &materials),
        Some("No affix to reroll")
    );
}

#[test]
fn panel_titles_count_items() {
    assert_eq!(run_inventory_title(0), "Run Inventory (0)");
    assert_eq!(run_inventory_title(31), "Run Inventory (31)");
    assert_eq!(safe_inventory_title(7), "Safe Inventory (7/20)");
    assert_eq!(quality_text(12), "Quality +12%");
}

#[test]
fn stats_panel_lines() {
    let totals = EquippedAttributeTotals {
        strength: 19,
        dexterity: 0,
        intelligence: 3,
        vitality: 5,
    };
    assert_eq!(
        stat_lines(&totals),
        vec![
            "Strength 19".to_string(),
            "Dexterity 0".to_string(),
            "Intelligence 3".to_string(),
            "Vitality 5".to_string(),
            "Attack damage +19%".to_string(),
            "Max health +50".to_string(),
        ]
    );
}

#[test]
fn tooltip_details_list_affixes_then_the_id() {
    let mut item = InventoryItem::new("crossbow", ItemRarity::Epic);
    assert_eq!(tooltip_detail_lines(&item), vec!["crossbow".to_string()]);
    item.affixes.push(CraftingAffix { kind: CraftingAffixKind::Range, tier: 2, value: 14 });
    item.affixes.push(CraftingAffix { kind: CraftingAffixKind::Dexterity, tier: 1, value: 6 });
    assert_eq!(
        tooltip_detail_lines(&item),
        vec![
            "Crafted affixes".to_string(),
            "T2 Range +14%".to_string(),
            "T1 +6 Dexterity".to_string(),
            "crossbow".to_string(),
        ]
    );
    assert_eq!(display_name(&item, Some("Heavy Crossbow")), "Heavy Crossbow");
    assert_eq!(display_name(&item, None), "crossbow");
}
