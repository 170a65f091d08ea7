use loot_forge::crafting::{
    tier_for_roll, CraftingAffix, CraftingAffixKind, CraftingMaterial, CraftingMaterials,
    INTELLIGENCE,
};
use loot_forge::inventory::InventoryItem;
use loot_forge::rarity::ItemRarity;

fn item_with_rarity(rarity: ItemRarity) -> InventoryItem {
    InventoryItem::new("weapon", rarity)
}

fn affix(kind: CraftingAffixKind) -> CraftingAffix {
    CraftingAffix {
        kind,
        tier: 1,
        value: 10,
    }
}

#[test]
fn starter_crafting_materials_are_large_testing_stacks() {
    let materials = CraftingMaterials::starter();

    for material in CraftingMaterial::ALL {
        assert_eq!(materials.amount(material), 999);
    }
}

#[test]
fn crafting_material_spend_checks_available_amount() {
    let mut materials = CraftingMaterials::starter();

    assert!(materials.can_spend(CraftingMaterial::Ember, 999));
    assert!(!materials.can_spend(CraftingMaterial::Ember, 1000));
    assert!(materials.spend(CraftingMaterial::Ember, 2));
    assert_eq!(materials.amount(CraftingMaterial::Ember), 997);
    assert!(!materials.spend(CraftingMaterial::Ember, 998));
    assert_eq!(materials.amount(CraftingMaterial::Ember), 997);
}

#[test]
fn affix_capacity_increases_with_rarity() {
    let cases = [
        (ItemRarity::Common, 0),
        (ItemRarity::Uncommon, 1),
        (ItemRarity::Rare, 2),
        (ItemRarity::Epic, 3),
        (ItemRarity::Legendary, 4),
        (ItemRarity::Mythic, 5),
    ];

    for (rarity, capacity) in cases {
        assert_eq!(item_with_rarity(rarity).affix_capacity(), capacity);
    }
}

#[test]
fn common_items_cannot_add_affixes() {
    let mut item = item_with_rarity(ItemRarity::Common);

    assert!(!item.can_add_affix());
    assert!(!item.add_random_affix());
    assert!(item.affixes.is_empty());
}

#[test]
fn add_random_affix_stops_at_rarity_capacity() {
    let mut item = item_with_rarity(ItemRarity::Rare);

    assert!(item.add_random_affix());
    assert!(item.add_random_affix());
    assert!(!item.add_random_affix());
    assert_eq!(item.affixes.len(), 2);
}

#[test]
fn mythic_items_stop_at_affix_capacity() {
    let mut item = item_with_rarity(ItemRarity::Mythic);

    for _ in 0..item.affix_capacity() {
        assert!(item.add_random_affix());
    }

    assert!(!item.add_random_affix());
    assert_eq!(item.affixes.len(), 5);
}

#[test]
fn quality_improvement_caps_at_twenty() {
    let mut item = item_with_rarity(ItemRarity::Rare);

    for _ in 0..10 {
        assert!(item.improve_quality());
    }

    assert_eq!(item.quality, 20);
    assert!(!item.can_improve_quality());
    assert!(!item.improve_quality());
    assert_eq!(item.quality, 20);
}

#[test]
fn guarantee_speed_affix_adds_speed_when_slot_is_open() {
    let mut item = item_with_rarity(ItemRarity::Uncommon);

    assert!(item.guarantee_speed_affix());
    assert_eq!(item.affixes.len(), 1);
    assert_eq!(item.affixes[0].kind, CraftingAffixKind::AttackSpeed);
}

#[test]
fn guarantee_speed_affix_replaces_existing_speed_affix() {
    let mut item = item_with_rarity(ItemRarity::Uncommon);
    item.affixes.push(affix(CraftingAffixKind::Damage));

    assert!(item.guarantee_speed_affix());
    assert_eq!(item.affixes.len(), 1);
    assert_eq!(item.affixes[0].kind, CraftingAffixKind::AttackSpeed);
}

#[test]
fn reforge_requires_existing_affix_and_preserves_affix_count() {
    let mut item = item_with_rarity(ItemRarity::Rare);

    assert!(!item.reforge_random_affix());

    item.affixes.push(affix(CraftingAffixKind::Damage));
    item.affixes.push(affix(CraftingAffixKind::Range));

    assert!(item.reforge_random_affix());
    assert_eq!(item.affixes.len(), 2);
    for affix in &item.affixes {
        assert!((1..=4).contains(&affix.tier));
        assert!((5..=25).contains(&affix.value));
    }
}

#[test]
fn attribute_affixes_are_labeled_as_flat_stats() {
    assert_eq!(
        affix(CraftingAffixKind::Strength).label(),
        "T1 +10 Strength"
    );
}

#[test]
fn attribute_affixes_produce_flat_attribute_modifiers() {
    assert_eq!(
        affix(CraftingAffixKind::Intelligence)
            .attribute_modifier()
            .map(|(attribute, value)| (attribute, value as f32)),
        Some((INTELLIGENCE, 10.0))
    );
    assert_eq!(affix(CraftingAffixKind::Damage).attribute_modifier(), None);
}

#[test]
fn percent_affixes_are_labeled_as_percentages() {
    let affix = CraftingAffix {
        kind: CraftingAffixKind::AttackSpeed,
        tier: 3,
        value: 17,
    };
    assert_eq!(affix.label(), "T3 Attack Speed +17%");
}

#[test]
fn tier_rolls_follow_the_percent_table() {
    assert_eq!(tier_for_roll(0), 1);
    assert_eq!(tier_for_roll(59), 1);
    assert_eq!(tier_for_roll(60), 2);
    assert_eq!(tier_for_roll(86), 2);
    assert_eq!(tier_for_roll(87), 3);
    assert_eq!(tier_for_roll(97), 3);
    assert_eq!(tier_for_roll(98), 4);
    assert_eq!(tier_for_roll(99), 4);
}

#[test]
fn rolled_affixes_stay_within_their_tier_range() {
    for _ in 0..500 {
        let affix = CraftingAffix::random(CraftingAffixKind::Vitality);
        assert_eq!(affix.kind, CraftingAffixKind::Vitality);
        assert!((1..=4).contains(&affix.tier));
        assert!(affix.value >= affix.tier * 5);
        assert!(affix.value <= affix.tier * 5 + 5);
    }
    let fixed = CraftingAffix::from_rolls(CraftingAffixKind::Range, 2, 3);
    assert_eq!(fixed.value, 13);
}

#[test]
fn added_affixes_never_repeat_a_family() {
    for _ in 0..100 {
        let mut item = item_with_rarity(ItemRarity::Mythic);
        while item.add_random_affix() {}
        assert_eq!(item.affixes.len(), 5);
        for i in 0..item.affixes.len() {
            for j in 0..item.affixes.len() {
                if i != j {
                    assert_ne!(item.affixes[i].kind, item.affixes[j].kind);
                }
            }
        }
    }
}

#[test]
fn available_families_skip_used_ones_in_order() {
    let used = [CraftingAffixKind::Damage, CraftingAffixKind::Strength];
    let available = CraftingAffixKind::available(&used);
    assert_eq!(available.len(), 7);
    assert_eq!(available[0], CraftingAffixKind::AttackSpeed);
    assert_eq!(available[6], CraftingAffixKind::Vitality);
    assert!(!available.contains(&CraftingAffixKind::Strength));

    let all = CraftingAffixKind::available(&[]);
    assert_eq!(CraftingAffixKind::random_available(&all), None);
    for _ in 0..50 {
        let picked = CraftingAffixKind::random_available(&used).unwrap();
        assert!(!used.contains(&picked));
    }
}

#[test]
fn reforge_with_forced_family_uses_it() {
    let mut item = item_with_rarity(ItemRarity::Rare);
    item.affixes.push(affix(CraftingAffixKind::Damage));
    item.affixes.push(affix(CraftingAffixKind::Range));
    item.reforge_affix_at(1, Some(CraftingAffixKind::Vitality));
    assert_eq!(item.affixes[0], affix(CraftingAffixKind::Damage));
    assert_eq!(item.affixes[1].kind, CraftingAffixKind::Vitality);
}

#[test]
fn reforge_keeps_family_when_every_other_is_taken() {
    let mut item = item_with_rarity(ItemRarity::Mythic);
    let kinds = [
        CraftingAffixKind::Damage,
        CraftingAffixKind::AttackSpeed,
        CraftingAffixKind::Range,
        CraftingAffixKind::ProjectileSpeed,
        CraftingAffixKind::CriticalChance,
        CraftingAffixKind::Strength,
        CraftingAffixKind::Dexterity,
        CraftingAffixKind::Intelligence,
        CraftingAffixKind::Vitality,
    ];
    for kind in kinds {
        item.affixes.push(affix(kind));
    }
    item.reforge_affix_at(4, None);
    assert_eq!(item.affixes[4].kind, CraftingAffixKind::CriticalChance);
}

#[test]
fn guarantee_rerolls_first_speed_affix() {
    let mut item = item_with_rarity(ItemRarity::Epic);
    item.affixes.push(affix(CraftingAffixKind::Damage));
    item.affixes.push(affix(CraftingAffixKind::AttackSpeed));
    assert!(item.guarantee_speed_affix());
    assert_eq!(item.affixes.len(), 2);
    assert_eq!(item.affixes[0], affix(CraftingAffixKind::Damage));
    assert_eq!(item.affixes[1].kind, CraftingAffixKind::AttackSpeed);

    let mut common = item_with_rarity(ItemRarity::Common);
    assert!(!common.can_guarantee_affix());
    assert!(!common.guarantee_speed_affix());
    assert!(common.affixes.is_empty());
}

#[test]
fn quality_rises_by_two_up_to_the_cap() {
    let mut item = item_with_rarity(ItemRarity::Common);
    item.quality = 19;
    assert!(item.improve_quality());
    assert_eq!(item.quality, 20);
    item.quality = 4;
    assert!(item.improve_quality());
    assert_eq!(item.quality, 6);
}

#[test]
fn material_labels_and_indices() {
    assert_eq!(CraftingMaterial::ReforgeOre.label(), "Reforge Ore");
    assert_eq!(CraftingMaterial::Essence.index(), 3);
    assert_eq!(CraftingAffixKind::ProjectileSpeed.label(), "Projectile Speed");
    assert!(CraftingAffixKind::CriticalChance.is_percent());
    assert!(!CraftingAffixKind::Dexterity.is_percent());
    let mut materials = CraftingMaterials::default();
    assert!(materials.spend(CraftingMaterial::Whetstone, 999));
    assert_eq!(materials.amount(CraftingMaterial::Whetstone), 0);
    assert_eq!(materials.amount(CraftingMaterial::Ember), 999);
    assert!(!materials.spend(CraftingMaterial::Whetstone, 1));
}
