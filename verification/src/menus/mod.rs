//! Menu states, and what the menus do to the inventories when the player acts.

use vstd::prelude::*;

use crate::crafting::{
    affix_added, affix_rerolled, raised_quality, speed_guaranteed, CraftingMaterial,
    CraftingMaterials, MAX_ITEM_QUALITY,
};
use crate::inventory::InventoryItem;
use crate::screens::Screen;

pub mod equipment;
pub mod inventory;
pub mod panels;

verus! {

/// The menu shown over the current screen; `Closed` when none is.
#[derive(Debug, Clone, Copy, PartialEq, Eq, Hash, Default, Structural)]
pub enum Menu {
    #[default]
    Closed,
    Main,
    Credits,
    Settings,
    Inventory,
    Equipment,
    Pause,
    GameOver,
    MonsterBuff,
}

/// Whether the pause key opens the pause menu: during gameplay with no menu open.
pub fn pause_key_opens_pause_menu(screen: Screen, menu: Menu) -> (r: bool)
    ensures
        r == (screen == Screen::Gameplay && menu == Menu::Closed),
{
    screen == Screen::Gameplay && menu == Menu::Closed
}

/// Whether the pause key closes the open menu: during gameplay, for any menu
/// but the monster-buff choice and the game-over menu.
pub fn pause_key_closes_menu(screen: Screen, menu: Menu) -> (r: bool)
    ensures
        r == (screen == Screen::Gameplay && menu != Menu::Closed && menu != Menu::MonsterBuff
            && menu != Menu::GameOver),
{
    screen == Screen::Gameplay && menu != Menu::Closed && menu != Menu::MonsterBuff && menu
        != Menu::GameOver
}

/// The menu that leaving the settings returns to: the main menu on the title
/// screen, the pause menu elsewhere.
pub fn settings_back_target(screen: Screen) -> (r: Menu)
    ensures
        r == (if screen == Screen::Title {
            Menu::Main
        } else {
            Menu::Pause
        }),
{
    if screen == Screen::Title {
        Menu::Main
    } else {
        Menu::Pause
    }
}


/// The crafting actions offered at the workbench, each paid with one unit of a material.
#[derive(Debug, Clone, Copy, PartialEq, Eq, Hash, Structural)]
pub enum CraftingAction {
    Improve,
    Add,
    Reroll,
    Guarantee,
}

impl CraftingAction {
    /// Every action, in the order the workbench lists them.
    pub const ALL: [CraftingAction; 4] = [
        CraftingAction::Improve,
        CraftingAction::Add,
        CraftingAction::Reroll,
        CraftingAction::Guarantee,
    ];

    /// The material one use of the action costs.
    pub open spec fn cost_material(self) -> CraftingMaterial {
        match self {
            CraftingAction::Improve => CraftingMaterial::Whetstone,
            CraftingAction::Add => CraftingMaterial::Ember,
            CraftingAction::Reroll => CraftingMaterial::ReforgeOre,
            CraftingAction::Guarantee => CraftingMaterial::Essence,
        }
    }

    /// `after` is what taking the action on `before` can give: the same
    /// weapon and rarity, with either the quality raised or the affixes
    /// changed as the action does.
    pub open spec fn crafted(self, before: InventoryItem, after: InventoryItem) -> bool {
        &&& after.item_id == before.item_id
        &&& after.rarity == before.rarity
        &&& match self {
            CraftingAction::Improve => after.quality == raised_quality(before.quality)
                && after.affixes == before.affixes,
            CraftingAction::Add => after.quality == before.quality && affix_added(
                before.affixes@,
                after.affixes@,
            ),
            CraftingAction::Reroll => after.quality == before.quality && affix_rerolled(
                before.affixes@,
                after.affixes@,
            ),
            CraftingAction::Guarantee => after.quality == before.quality && speed_guaranteed(
                before.affixes@,
                before.has_open_affix_slot(),
                after.affixes@,
            ),
        }
    }

    /// Whether the action can change `item`, materials aside.
    pub open spec fn applies_to(self, item: InventoryItem) -> bool {
        match self {
            CraftingAction::Improve => item.quality < MAX_ITEM_QUALITY,
            CraftingAction::Add => item.has_open_affix_slot(),
            CraftingAction::Reroll => item.affixes@.len() > 0,
            CraftingAction::Guarantee => item.has_open_affix_slot() || item.affixes@.len() > 0,
        }
    }

    /// Why the action cannot be taken on `item` with `materials`, or `None` when it can.
    pub open spec fn blocked_reason(self, item: InventoryItem, materials: CraftingMaterials) -> Option<
        Seq<char>,
    > {
        if materials.amount_of(self.cost_material()) < 1 {
            Some("Missing material"@)
        } else if self.applies_to(item) {
            None
        } else {
            match self {
                CraftingAction::Improve => Some("Quality is already maxed"@),
                CraftingAction::Add => Some("No open affix slot"@),
                CraftingAction::Reroll => Some("No affix to reroll"@),
                CraftingAction::Guarantee => Some("No craftable affix slot"@),
            }
        }
    }

    pub open spec fn title_text(self) -> Seq<char> {
        match self {
            CraftingAction::Improve => "Improve"@,
            CraftingAction::Add => "Add"@,
            CraftingAction::Reroll => "Reroll"@,
            CraftingAction::Guarantee => "Guarantee"@,
        }
    }

    pub open spec fn description_text(self) -> Seq<char> {
        match self {
            CraftingAction::Improve => "Safe quality upgrade"@,
            CraftingAction::Add => "Add a random affix"@,
            CraftingAction::Reroll => "Replace one affix"@,
            CraftingAction::Guarantee => "Force an affix family"@,
        }
    }

    /// The preview text of the inventory workbench.
    pub open spec fn preview_text(self) -> Seq<char> {
        match self {
            CraftingAction::Improve => "Quality +2% up to tier cap."@,
            CraftingAction::Add => "Rolls one random affix if a slot is open."@,
            CraftingAction::Reroll => "Replaces one unsealed affix."@,
            CraftingAction::Guarantee => "Essence guarantees the affix family."@,
        }
    }

    /// The preview text of the equipment workbench.
    pub open spec fn equipment_preview_text(self) -> Seq<char> {
        match self {
            CraftingAction::Improve => "Quality +2% up to tier cap."@,
            CraftingAction::Add => "Rolls one random affix if a slot is open."@,
            CraftingAction::Reroll => "Replaces one affix."@,
            CraftingAction::Guarantee => "Essence guarantees attack speed."@,
        }
    }

    pub fn title(self) -> (r: &'static str)
        ensures
            r@ == self.title_text(),
    {
        match self {
            CraftingAction::Improve => "Improve",
            CraftingAction::Add => "Add",
            CraftingAction::Reroll => "Reroll",
            CraftingAction::Guarantee => "Guarantee",
        }
    }

    pub fn material_kind(self) -> (r: CraftingMaterial)
        ensures
            r == self.cost_material(),
    {
        match self {
            CraftingAction::Improve => CraftingMaterial::Whetstone,
            CraftingAction::Add => CraftingMaterial::Ember,
            CraftingAction::Reroll => CraftingMaterial::ReforgeOre,
            CraftingAction::Guarantee => CraftingMaterial::Essence,
        }
    }

    /// The name of the material the action costs.
    pub fn material(self) -> (r: &'static str)
        ensures
            r@ == self.cost_material().label_text(),
    {
        self.material_kind().label()
    }

    pub fn description(self) -> (r: &'static str)
        ensures
            r@ == self.description_text(),
    {
        match self {
            CraftingAction::Improve => "Safe quality upgrade",
            CraftingAction::Add => "Add a random affix",
            CraftingAction::Reroll => "Replace one affix",
            CraftingAction::Guarantee => "Force an affix family",
        }
    }

    pub fn preview(self) -> (r: &'static str)
        ensures
            r@ == self.preview_text(),
    {
        match self {
            CraftingAction::Improve => "Quality +2% up to tier cap.",
            CraftingAction::Add => "Rolls one random affix if a slot is open.",
            CraftingAction::Reroll => "Replaces one unsealed affix.",
            CraftingAction::Guarantee => "Essence guarantees the affix family.",
        }
    }

    pub fn equipment_preview(self) -> (r: &'static str)
        ensures
            r@ == self.equipment_preview_text(),
    {
        match self {
            CraftingAction::Improve => "Quality +2% up to tier cap.",
            CraftingAction::Add => "Rolls one random affix if a slot is open.",
            CraftingAction::Reroll => "Replaces one affix.",
            CraftingAction::Guarantee => "Essence guarantees attack speed.",
        }
    }

    /// Why the action cannot be taken on `item` with `materials`, or `None` when it can.
    pub fn unavailable_reason(self, item: &InventoryItem, materials: &CraftingMaterials) -> (r:
        Option<&'static str>)
        ensures
            r is None <==> self.blocked_reason(*item, *materials) is None,
            r matches Some(text) ==> text@ == self.blocked_reason(*item, *materials).unwrap(),
    {
        if !materials.can_spend(self.material_kind(), 1) {
            return Some("Missing material");
        }
        match self {
            CraftingAction::Improve => if !item.can_improve_quality() {
                Some("Quality is already maxed")
            } else {
                None
            },
            CraftingAction::Add => if !item.can_add_affix() {
                Some("No open affix slot")
            } else {
                None
            },
            CraftingAction::Reroll => if !item.can_reforge_affix() {
                Some("No affix to reroll")
            } else {
                None
            },
            CraftingAction::Guarantee => if !item.can_guarantee_affix() {
                Some("No craftable affix slot")
            } else {
                None
            },
        }
    }

    /// Performs the action on `item` without paying for it.
    pub fn apply(self, item: &mut InventoryItem) -> (r: bool)
        ensures
            r == self.applies_to(*old(item)),
            r ==> self.crafted(*old(item), *final(item)),
            !r ==> final(item).same_as(*old(item)),
            final(item).item_id == old(item).item_id,
            final(item).rarity == old(item).rarity,
            old(item).well_crafted() ==> final(item).well_crafted(),
    {
        match self {
            CraftingAction::Improve => item.improve_quality(),
            CraftingAction::Add => item.add_random_affix(),
            CraftingAction::Reroll => item.reforge_random_affix(),
            CraftingAction::Guarantee => item.guarantee_speed_affix(),
        }
    }

    /// Takes the action on `item` and pays one unit of its material, when the
    /// action is available; otherwise changes nothing.
    pub fn craft(self, item: &mut InventoryItem, materials: &mut CraftingMaterials) -> (r: bool)
        ensures
            r == (self.blocked_reason(*old(item), *old(materials)) is None),
            r ==> final(materials).stack_amounts() == old(materials).stack_amounts().update(
                self.cost_material().slot() as int,
                (old(materials).amount_of(self.cost_material()) - 1) as u32,
            ),
            r ==> self.crafted(*old(item), *final(item)),
            !r ==> *final(materials) == *old(materials) && *final(item) == *old(item),
            final(item).item_id == old(item).item_id,
            final(item).rarity == old(item).rarity,
            old(item).well_crafted() ==> final(item).well_crafted(),
    {
        if self.unavailable_reason(item, materials).is_some() {
            return false;
        }
        if !self.apply(item) {
            return false;
        }
        materials.spend(self.material_kind(), 1);
        true
    }
}

} // verus!
