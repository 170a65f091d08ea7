//! The equipped weapon slot, moves between it and the safe inventory, and the
//! attribute bonuses of equipped affixes.

use vstd::prelude::*;
use vstd::multiset::Multiset;

use crate::crafting::{CraftingAffix, CraftingAffixKind};
use crate::inventory::{InventoryItem, SafeInventory, SAFE_INVENTORY_CAPACITY};

verus! {

broadcast use vstd::seq_lib::group_to_multiset_ensures, vstd::multiset::group_multiset_axioms;

/// The places an item can be equipped in.
#[derive(Debug, Clone, Copy, PartialEq, Eq, Hash, Structural)]
pub enum EquipmentSlot {
    MainHand,
}

/// Both options are empty, or both hold the same item.
pub open spec fn same_option(a: Option<InventoryItem>, b: Option<InventoryItem>) -> bool {
    match (a, b) {
        (None, None) => true,
        (Some(x), Some(y)) => x.same_as(y),
        _ => false,
    }
}

/// What is equipped, what the player's stats were last brought in line with,
/// and the weapon the player had before equipping anything.
#[derive(Debug)]
pub struct Equipment {
    main_hand: Option<InventoryItem>,
    synced_main_hand: Option<InventoryItem>,
    base_weapon: Option<String>,
}

/// The changes to make to the player to bring it in line with the equipment:
/// whose attribute bonuses to take away, whose to grant, and which weapon to wield.
#[derive(Debug)]
pub struct EquipmentSync {
    pub remove_bonuses_of: Option<InventoryItem>,
    pub apply_bonuses_of: Option<InventoryItem>,
    pub weapon_to_equip: Option<String>,
}

fn copy_option(item: &Option<InventoryItem>) -> (r: Option<InventoryItem>)
    ensures
        same_option(r, *item),
{
    match item {
        Some(item) => Some(item.duplicate()),
        None => None,
    }
}

impl Clone for Equipment {
    fn clone(&self) -> (r: Equipment)
        ensures
            same_option(r.equipped(EquipmentSlot::MainHand), self.equipped(EquipmentSlot::MainHand)),
            same_option(r.synced(EquipmentSlot::MainHand), self.synced(EquipmentSlot::MainHand)),
            r.base_weapon() is Some <==> self.base_weapon() is Some,
            r.base_weapon() matches Some(id) ==> id@ == self.base_weapon().unwrap()@,
    {
        Equipment {
            main_hand: copy_option(&self.main_hand),
            synced_main_hand: copy_option(&self.synced_main_hand),
            base_weapon: match &self.base_weapon {
                Some(id) => Some(id.clone()),
                None => None,
            },
        }
    }
}

impl Default for Equipment {
    fn default() -> (r: Equipment)
        ensures
            r.equipped(EquipmentSlot::MainHand) is None,
            r.synced(EquipmentSlot::MainHand) is None,
            r.base_weapon() is None,
    {
        Equipment { main_hand: None, synced_main_hand: None, base_weapon: None }
    }
}

impl Equipment {
    /// The item in `slot`.
    pub closed spec fn equipped(self, slot: EquipmentSlot) -> Option<InventoryItem> {
        match slot {
            EquipmentSlot::MainHand => self.main_hand,
        }
    }

    /// The item in `slot` when the player was last brought in line with it.
    pub closed spec fn synced(self, slot: EquipmentSlot) -> Option<InventoryItem> {
        match slot {
            EquipmentSlot::MainHand => self.synced_main_hand,
        }
    }

    /// The id of the weapon the player wielded before any item was equipped.
    pub closed spec fn base_weapon(self) -> Option<String> {
        self.base_weapon
    }

    pub fn item(&self, slot: EquipmentSlot) -> (r: Option<&InventoryItem>)
        ensures
            r is Some <==> self.equipped(slot) is Some,
            r matches Some(item) ==> *item == self.equipped(slot).unwrap(),
    {
        match slot {
            EquipmentSlot::MainHand => self.main_hand.as_ref(),
        }
    }

    pub fn synced_item(&self, slot: EquipmentSlot) -> (r: Option<&InventoryItem>)
        ensures
            r is Some <==> self.synced(slot) is Some,
            r matches Some(item) ==> *item == self.synced(slot).unwrap(),
    {
        match slot {
            EquipmentSlot::MainHand => self.synced_main_hand.as_ref(),
        }
    }

    /// Puts `item` in `slot` and hands back what was there.
    pub fn equip(&mut self, slot: EquipmentSlot, item: InventoryItem) -> (r: Option<InventoryItem>)
        ensures
            r == old(self).equipped(slot),
            final(self).equipped(slot) == Some(item),
            final(self).synced(slot) == old(self).synced(slot),
            final(self).base_weapon() == old(self).base_weapon(),
    {
        match slot {
            EquipmentSlot::MainHand => {
                let previous = self.main_hand.take();
                self.main_hand = Some(item);
                previous
            },
        }
    }

    /// Empties `slot` and hands back what was there.
    pub fn take(&mut self, slot: EquipmentSlot) -> (r: Option<InventoryItem>)
        ensures
            r == old(self).equipped(slot),
            final(self).equipped(slot) is None,
            final(self).synced(slot) == old(self).synced(slot),
            final(self).base_weapon() == old(self).base_weapon(),
    {
        match slot {
            EquipmentSlot::MainHand => self.main_hand.take(),
        }
    }

    /// Records that the player is now in line with what `slot` holds.
    pub fn mark_synced(&mut self, slot: EquipmentSlot)
        ensures
            final(self).equipped(slot) == old(self).equipped(slot),
            same_option(final(self).synced(slot), final(self).equipped(slot)),
            final(self).base_weapon() == old(self).base_weapon(),
    {
        match slot {
            EquipmentSlot::MainHand => {
                self.synced_main_hand = match &self.main_hand {
                    Some(item) => Some(item.duplicate()),
                    None => None,
                };
            },
        }
    }

    /// Whether `slot` holds something else than when the player was last brought in line.
    pub fn needs_sync(&self, slot: EquipmentSlot) -> (r: bool)
        ensures
            r == !same_option(self.equipped(slot), self.synced(slot)),
    {
        match (self.item(slot), self.synced_item(slot)) {
            (None, None) => false,
            (Some(current), Some(synced)) => !current.equals(synced),
            _ => true,
        }
    }

    /// Brings the record in line with the main hand and says what to change on
    /// the player: the first time, `current_weapon` is kept as the weapon to
    /// fall back to; the bonuses of the previously synced item go, those of the
    /// equipped item come, and the equipped item's weapon (or else the fallback)
    /// is wielded.
    pub fn sync_main_hand(&mut self, current_weapon: &str) -> (r: EquipmentSync)
        ensures
            final(self).equipped(EquipmentSlot::MainHand) == old(self).equipped(
                EquipmentSlot::MainHand,
            ),
            same_option(
                final(self).synced(EquipmentSlot::MainHand),
                final(self).equipped(EquipmentSlot::MainHand),
            ),
            old(self).base_weapon() is Some ==> final(self).base_weapon() == old(self).base_weapon(),
            old(self).base_weapon() is None ==> final(self).base_weapon() is Some
                && final(self).base_weapon().unwrap()@ == current_weapon@,
            same_option(r.remove_bonuses_of, old(self).synced(EquipmentSlot::MainHand)),
            same_option(r.apply_bonuses_of, old(self).equipped(EquipmentSlot::MainHand)),
            r.weapon_to_equip is Some,
            old(self).equipped(EquipmentSlot::MainHand) matches Some(item)
                ==> r.weapon_to_equip.unwrap()@ == item.item_id@,
            old(self).equipped(EquipmentSlot::MainHand) is None
                ==> r.weapon_to_equip.unwrap()@ == final(self).base_weapon().unwrap()@,
    {
        if self.base_weapon.is_none() {
            self.base_weapon = Some(current_weapon.to_owned());
        }
        let remove_bonuses_of = match &self.synced_main_hand {
            Some(item) => Some(item.duplicate()),
            None => None,
        };
        let (apply_bonuses_of, weapon_to_equip) = match &self.main_hand {
            Some(item) => (Some(item.duplicate()), Some(item.item_id.clone())),
            None => match &self.base_weapon {
                Some(base) => (None, Some(base.clone())),
                None => (None, None),
            },
        };
        self.mark_synced(EquipmentSlot::MainHand);
        EquipmentSync { remove_bonuses_of, apply_bonuses_of, weapon_to_equip }
    }
}

/// What `slot` holds, as a list of zero or one items.
pub open spec fn slot_contents(equipment: Equipment, slot: EquipmentSlot) -> Seq<InventoryItem> {
    match equipment.equipped(slot) {
        Some(item) => seq![item],
        None => Seq::empty(),
    }
}

/// Equips the safe item at `index` in `slot`; the item it replaces goes to the
/// end of the safe inventory. Nothing moves when there is no such item.
pub fn move_safe_item_to_equipment(
    safe_inventory: &mut SafeInventory,
    equipment: &mut Equipment,
    index: usize,
    slot: EquipmentSlot,
) -> (r: bool)
    ensures
        r == (index < old(safe_inventory)@.len()),
        r ==> final(equipment).equipped(slot) == Some(old(safe_inventory)@[index as int])
            && final(safe_inventory)@ == old(safe_inventory)@.remove(index as int) + slot_contents(
            *old(equipment),
            slot,
        ),
        !r ==> final(safe_inventory)@ == old(safe_inventory)@ && final(equipment).equipped(slot)
            == old(equipment).equipped(slot),
        final(equipment).synced(slot) == old(equipment).synced(slot),
        final(equipment).base_weapon() == old(equipment).base_weapon(),
        final(safe_inventory)@.to_multiset().add(slot_contents(*final(equipment), slot).to_multiset())
            == old(safe_inventory)@.to_multiset().add(
            slot_contents(*old(equipment), slot).to_multiset(),
        ),
{
    let item = match safe_inventory.take(index) {
        Some(item) => item,
        None => return false,
    };
    let ghost after_take = safe_inventory@;
    match equipment.equip(slot, item) {
        Some(previous) => {
            match safe_inventory.try_push(previous) {
                Ok(()) => {},
                Err(_) => {
                    proof {
                        assert(false);
                    }
                },
            }
            proof {
                assert(safe_inventory@ =~= old(safe_inventory)@.remove(index as int) + slot_contents(
                    *old(equipment),
                    slot,
                ));
            }
        },
        None => {
            proof {
                assert(safe_inventory@ =~= old(safe_inventory)@.remove(index as int) + slot_contents(
                    *old(equipment),
                    slot,
                ));
            }
        },
    }
    proof {
        let moved = old(safe_inventory)@[index as int];
        vstd::seq_lib::lemma_multiset_commutative(after_take, slot_contents(*old(equipment), slot));
        assert(slot_contents(*equipment, slot) =~= seq![moved]);
        assert(seq![moved].to_multiset() =~= Multiset::<InventoryItem>::empty().insert(moved)) by {
            assert(Seq::<InventoryItem>::empty().push(moved) =~= seq![moved]);
        }
        assert(safe_inventory@.to_multiset().add(slot_contents(*equipment, slot).to_multiset())
            =~= old(safe_inventory)@.to_multiset().add(
            slot_contents(*old(equipment), slot).to_multiset(),
        ));
    }
    true
}

/// Moves the item in `slot` to the end of the safe inventory; nothing moves
/// when the safe inventory is full or the slot is empty.
pub fn move_equipment_item_to_safe(
    equipment: &mut Equipment,
    safe_inventory: &mut SafeInventory,
    slot: EquipmentSlot,
) -> (r: bool)
    ensures
        r == (old(safe_inventory)@.len() < SAFE_INVENTORY_CAPACITY && old(equipment).equipped(slot) is Some),
        r ==> final(equipment).equipped(slot) is None && final(safe_inventory)@ == old(
            safe_inventory,
        )@.push(old(equipment).equipped(slot).unwrap()),
        !r ==> final(safe_inventory)@ == old(safe_inventory)@ && final(equipment).equipped(slot)
            == old(equipment).equipped(slot),
        final(equipment).synced(slot) == old(equipment).synced(slot),
        final(equipment).base_weapon() == old(equipment).base_weapon(),
        final(safe_inventory)@.to_multiset().add(slot_contents(*final(equipment), slot).to_multiset())
            == old(safe_inventory)@.to_multiset().add(
            slot_contents(*old(equipment), slot).to_multiset(),
        ),
{
    if safe_inventory.is_full() {
        return false;
    }
    let item = match equipment.take(slot) {
        Some(item) => item,
        None => return false,
    };
    match safe_inventory.try_push(item) {
        Err(item) => {
            proof {
                assert(false);
            }
            equipment.equip(slot, item);
            false
        },
        Ok(()) => {
            proof {
                let moved = old(equipment).equipped(slot).unwrap();
                assert(slot_contents(*equipment, slot) =~= Seq::<InventoryItem>::empty());
                assert(slot_contents(*old(equipment), slot) =~= Seq::<InventoryItem>::empty().push(moved));
                assert(safe_inventory@.to_multiset().add(slot_contents(*equipment, slot).to_multiset())
                    =~= old(safe_inventory)@.to_multiset().add(
                    slot_contents(*old(equipment), slot).to_multiset(),
                ));
            }
            true
        },
    }
}

/// The attribute bonuses of a list of affixes: one `(attribute, amount)` pair
/// for each attribute affix, in order.
pub open spec fn attribute_bonuses(affixes: Seq<CraftingAffix>) -> Seq<(&'static str, u8)>
    decreases affixes.len(),
{
    if affixes.len() == 0 {
        Seq::empty()
    } else {
        let prev = attribute_bonuses(affixes.drop_last());
        match affixes.last().attribute_bonus() {
            Some(bonus) => prev.push(bonus),
            None => prev,
        }
    }
}

/// The attribute bonuses that equipping `item` grants.
pub fn item_attribute_modifiers(item: &InventoryItem) -> (r: Vec<(&'static str, u8)>)
    ensures
        r@ == attribute_bonuses(item.affixes@),
{
    let mut r: Vec<(&'static str, u8)> = Vec::new();
    let mut i: usize = 0;
    while i < item.affixes.len()
        invariant
            i <= item.affixes@.len(),
            r@ == attribute_bonuses(item.affixes@.take(i as int)),
        decreases item.affixes@.len() - i,
    {
        proof {
            assert(item.affixes@.take(i + 1).drop_last() =~= item.affixes@.take(i as int));
        }
        match item.affixes[i].attribute_modifier() {
            Some(bonus) => r.push(bonus),
            None => {},
        }
        i += 1;
    }
    assert(item.affixes@.take(i as int) =~= item.affixes@);
    r
}

/// The sum of the values of the affixes of family `kind`.
pub open spec fn kind_total(affixes: Seq<CraftingAffix>, kind: CraftingAffixKind) -> nat
    decreases affixes.len(),
{
    if affixes.len() == 0 {
        0
    } else {
        kind_total(affixes.drop_last(), kind) + if affixes.last().kind == kind {
            affixes.last().value as nat
        } else {
            0nat
        }
    }
}

/// `total`, or the largest `u64` when it does not fit.
pub open spec fn capped(total: nat) -> u64 {
    if total > u64::MAX {
        u64::MAX
    } else {
        total as u64
    }
}

/// Flat attribute bonuses of what is equipped, per attribute.
#[derive(Debug, Clone, Copy, PartialEq, Eq, Default)]
pub struct EquippedAttributeTotals {
    pub strength: u64,
    pub dexterity: u64,
    pub intelligence: u64,
    pub vitality: u64,
}

/// The flat attribute totals an affix list grants, each capped at the largest `u64`.
pub open spec fn totals_of(affixes: Seq<CraftingAffix>) -> EquippedAttributeTotals {
    EquippedAttributeTotals {
        strength: capped(kind_total(affixes, CraftingAffixKind::Strength)),
        dexterity: capped(kind_total(affixes, CraftingAffixKind::Dexterity)),
        intelligence: capped(kind_total(affixes, CraftingAffixKind::Intelligence)),
        vitality: capped(kind_total(affixes, CraftingAffixKind::Vitality)),
    }
}

proof fn lemma_capped_step(total: nat, value: nat)
    ensures
        capped(total + value) == (if capped(total) + value > u64::MAX {
            u64::MAX
        } else {
            (capped(total) + value) as u64
        }),
{
}

/// The flat attribute totals granted by the affixes of the main-hand item;
/// all zero when nothing is equipped.
pub fn equipped_attribute_totals(equipment: &Equipment) -> (r: EquippedAttributeTotals)
    ensures
        equipment.equipped(EquipmentSlot::MainHand) matches Some(item) ==> r == totals_of(
            item.affixes@,
        ),
        equipment.equipped(EquipmentSlot::MainHand) is None ==> r == totals_of(
            Seq::<CraftingAffix>::empty(),
        ),
{
    let mut stats = EquippedAttributeTotals { strength: 0, dexterity: 0, intelligence: 0, vitality: 0 };
    let item = match equipment.item(EquipmentSlot::MainHand) {
        Some(item) => item,
        None => return stats,
    };
    let mut i: usize = 0;
    while i < item.affixes.len()
        invariant
            i <= item.affixes@.len(),
            stats == totals_of(item.affixes@.take(i as int)),
        decreases item.affixes@.len() - i,
    {
        let affix = item.affixes[i];
        proof {
            let prefix = item.affixes@.take(i as int);
            assert(item.affixes@.take(i + 1).drop_last() =~= prefix);
            lemma_capped_step(kind_total(prefix, affix.kind), affix.value as nat);
        }
        match affix.kind {
            CraftingAffixKind::Strength => {
                stats.strength = stats.strength.saturating_add(affix.value as u64);
            },
            CraftingAffixKind::Dexterity => {
                stats.dexterity = stats.dexterity.saturating_add(affix.value as u64);
            },
            CraftingAffixKind::Intelligence => {
                stats.intelligence = stats.intelligence.saturating_add(affix.value as u64);
            },
            CraftingAffixKind::Vitality => {
                stats.vitality = stats.vitality.saturating_add(affix.value as u64);
            },
            _ => {},
        }
        i += 1;
    }
    assert(item.affixes@.take(i as int) =~= item.affixes@);
    stats
}

/// Having the same item is symmetric, so once the record is brought in line
/// with a slot, the slot no longer needs syncing.
pub proof fn lemma_synced_slot_needs_no_sync(equipment: Equipment, slot: EquipmentSlot)
    requires
        same_option(equipment.synced(slot), equipment.equipped(slot)),
    ensures
        same_option(equipment.equipped(slot), equipment.synced(slot)),
{
}

/// The sum of the amounts of the bonuses that raise the attribute named `name`.
pub open spec fn bonus_total(bonuses: Seq<(&'static str, u8)>, name: Seq<char>) -> nat
    decreases bonuses.len(),
{
    if bonuses.len() == 0 {
        0
    } else {
        bonus_total(bonuses.drop_last(), name) + if bonuses.last().0@ == name {
            bonuses.last().1 as nat
        } else {
            0nat
        }
    }
}

proof fn lemma_attribute_names_distinct()
    ensures
        "Strength"@ != "Dexterity"@,
        "Strength"@ != "Intelligence"@,
        "Strength"@ != "Vitality"@,
        "Dexterity"@ != "Intelligence"@,
        "Dexterity"@ != "Vitality"@,
        "Intelligence"@ != "Vitality"@,
{
    reveal_strlit("Strength");
    reveal_strlit("Dexterity");
    reveal_strlit("Intelligence");
    reveal_strlit("Vitality");
    assert("Strength"@[0] != "Dexterity"@[0]);
    assert("Strength"@[0] != "Intelligence"@[0]);
    assert("Strength"@[0] != "Vitality"@[0]);
    assert("Dexterity"@[0] != "Intelligence"@[0]);
    assert("Dexterity"@[0] != "Vitality"@[0]);
    assert("Intelligence"@[0] != "Vitality"@[0]);
}

proof fn lemma_kind_total_by_name(affixes: Seq<CraftingAffix>, kind: CraftingAffixKind)
    requires
        kind == CraftingAffixKind::Strength || kind == CraftingAffixKind::Dexterity || kind
            == CraftingAffixKind::Intelligence || kind == CraftingAffixKind::Vitality,
    ensures
        kind_total(affixes, kind) == bonus_total(attribute_bonuses(affixes), kind.label_text()),
    decreases affixes.len(),
{
    lemma_attribute_names_distinct();
    if affixes.len() > 0 {
        lemma_kind_total_by_name(affixes.drop_last(), kind);
        let prev = attribute_bonuses(affixes.drop_last());
        match affixes.last().attribute_bonus() {
            Some(bonus) => {
                assert(prev.push(bonus).drop_last() =~= prev);
            },
            None => {},
        }
    }
}

/// Each attribute total is the sum of the bonuses that name that attribute,
/// as the affixes' attribute modifiers give them (capped at the largest `u64`).
pub proof fn lemma_totals_follow_attribute_names(affixes: Seq<CraftingAffix>)
    ensures
        totals_of(affixes).strength == capped(
            bonus_total(attribute_bonuses(affixes), "Strength"@),
        ),
        totals_of(affixes).dexterity == capped(
            bonus_total(attribute_bonuses(affixes), "Dexterity"@),
        ),
        totals_of(affixes).intelligence == capped(
            bonus_total(attribute_bonuses(affixes), "Intelligence"@),
        ),
        totals_of(affixes).vitality == capped(
            bonus_total(attribute_bonuses(affixes), "Vitality"@),
        ),
{
    lemma_kind_total_by_name(affixes, CraftingAffixKind::Strength);
    lemma_kind_total_by_name(affixes, CraftingAffixKind::Dexterity);
    lemma_kind_total_by_name(affixes, CraftingAffixKind::Intelligence);
    lemma_kind_total_by_name(affixes, CraftingAffixKind::Vitality);
}

/// A single affix adds its value to the total of its own attribute and to no other.
pub proof fn lemma_single_affix_totals(affix: CraftingAffix)
    ensures
        totals_of(seq![affix]).strength == if affix.kind == CraftingAffixKind::Strength {
            affix.value as u64
        } else {
            0
        },
        totals_of(seq![affix]).dexterity == if affix.kind == CraftingAffixKind::Dexterity {
            affix.value as u64
        } else {
            0
        },
        totals_of(seq![affix]).intelligence == if affix.kind == CraftingAffixKind::Intelligence {
            affix.value as u64
        } else {
            0
        },
        totals_of(seq![affix]).vitality == if affix.kind == CraftingAffixKind::Vitality {
            affix.value as u64
        } else {
            0
        },
{
    let single = seq![affix];
    assert(single.drop_last() =~= Seq::<CraftingAffix>::empty());
    assert(single.last() == affix);
    assert(kind_total(single, CraftingAffixKind::Strength) == kind_total(
        Seq::<CraftingAffix>::empty(),
        CraftingAffixKind::Strength,
    ) + if affix.kind == CraftingAffixKind::Strength {
        affix.value as nat
    } else {
        0nat
    });
    assert(kind_total(single, CraftingAffixKind::Dexterity) == kind_total(
        Seq::<CraftingAffix>::empty(),
        CraftingAffixKind::Dexterity,
    ) + if affix.kind == CraftingAffixKind::Dexterity {
        affix.value as nat
    } else {
        0nat
    });
    assert(kind_total(single, CraftingAffixKind::Intelligence) == kind_total(
        Seq::<CraftingAffix>::empty(),
        CraftingAffixKind::Intelligence,
    ) + if affix.kind == CraftingAffixKind::Intelligence {
        affix.value as nat
    } else {
        0nat
    });
    assert(kind_total(single, CraftingAffixKind::Vitality) == kind_total(
        Seq::<CraftingAffix>::empty(),
        CraftingAffixKind::Vitality,
    ) + if affix.kind == CraftingAffixKind::Vitality {
        affix.value as nat
    } else {
        0nat
    });
}

} // verus!
