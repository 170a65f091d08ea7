//! The texts of the menu panels that depend on the game state.

use vstd::prelude::*;

use super::CraftingAction;
use crate::crafting::{CraftingAffix, CraftingMaterials};
use crate::equipment::EquippedAttributeTotals;
use crate::inventory::{InventoryItem, SAFE_INVENTORY_CAPACITY};
use crate::text::{append_decimal, append_text, decimal};

verus! {

/// `<material> <amount>/1`: the stock of the material an action costs.
pub open spec fn material_cost_text_of(action: CraftingAction, materials: CraftingMaterials) -> Seq<
    char,
> {
    action.cost_material().label_text() + " "@ + decimal(
        materials.amount_of(action.cost_material()) as nat,
    ) + "/1"@
}

/// The stock line of an action card.
pub fn material_cost_text(action: CraftingAction, materials: &CraftingMaterials) -> (r: String)
    ensures
        r@ == material_cost_text_of(action, *materials),
{
    let mut out = String::new();
    append_text(&mut out, action.material());
    append_text(&mut out, " ");
    append_decimal(&mut out, materials.amount(action.material_kind()) as u128);
    append_text(&mut out, "/1");
    out
}

/// The preview line of the inventory workbench: the action's preview once a
/// weapon is selected, a prompt to select one before.
pub fn inventory_crafting_preview(action: CraftingAction, has_selection: bool) -> (r: &'static str)
    ensures
        has_selection ==> r@ == action.preview_text(),
        !has_selection ==> r@ == "Select a weapon before crafting."@,
{
    if has_selection {
        action.preview()
    } else {
        "Select a weapon before crafting."
    }
}

/// The preview line of the equipment workbench.
pub fn equipment_crafting_preview(action: CraftingAction, has_selection: bool) -> (r: &'static str)
    ensures
        has_selection ==> r@ == action.equipment_preview_text(),
        !has_selection ==> r@ == "Select a weapon before crafting."@,
{
    if has_selection {
        action.equipment_preview()
    } else {
        "Select a weapon before crafting."
    }
}

/// Why the craft button is disabled, or `None` when it is enabled: a weapon
/// must be selected and the action available on it.
pub fn craft_button_reason(
    action: CraftingAction,
    selected_item: Option<&InventoryItem>,
    materials: &CraftingMaterials,
) -> (r: Option<&'static str>)
    ensures
        selected_item is None ==> r is Some && r.unwrap()@ == "Select a weapon"@,
        selected_item matches Some(item) ==> (r is None <==> action.blocked_reason(
            *item,
            *materials,
        ) is None) && (r matches Some(text) ==> text@ == action.blocked_reason(
            *item,
            *materials,
        ).unwrap()),
{
    match selected_item {
        Some(item) => action.unavailable_reason(item, materials),
        None => Some("Select a weapon"),
    }
}

/// The heading of the run inventory panel: `Run Inventory (<count>)`.
pub fn run_inventory_title(count: usize) -> (r: String)
    ensures
        r@ == "Run Inventory ("@ + decimal(count as nat) + ")"@,
{
    let mut out = String::new();
    append_text(&mut out, "Run Inventory (");
    append_decimal(&mut out, count as u128);
    append_text(&mut out, ")");
    out
}

/// The heading of the safe inventory panel: `Safe Inventory (<count>/20)`.
pub fn safe_inventory_title(count: usize) -> (r: String)
    ensures
        r@ == "Safe Inventory ("@ + decimal(count as nat) + "/"@ + decimal(
            SAFE_INVENTORY_CAPACITY as nat,
        ) + ")"@,
{
    let mut out = String::new();
    append_text(&mut out, "Safe Inventory (");
    append_decimal(&mut out, count as u128);
    append_text(&mut out, "/");
    append_decimal(&mut out, SAFE_INVENTORY_CAPACITY as u128);
    append_text(&mut out, ")");
    out
}

/// The quality line of an item tooltip: `Quality +<quality>%`.
pub fn quality_text(quality: u8) -> (r: String)
    ensures
        r@ == "Quality +"@ + decimal(quality as nat) + "%"@,
{
    let mut out = String::new();
    append_text(&mut out, "Quality +");
    append_decimal(&mut out, quality as u128);
    append_text(&mut out, "%");
    out
}

/// `<prefix><number><suffix>`.
fn labelled_number(prefix: &str, number: u128, suffix: &str) -> (r: String)
    ensures
        r@ == prefix@ + decimal(number as nat) + suffix@,
{
    let mut out = String::new();
    append_text(&mut out, prefix);
    append_decimal(&mut out, number);
    append_text(&mut out, suffix);
    out
}

/// The lines of the stats panel for the equipped attribute totals: each
/// attribute, then the damage bonus strength grants (one percent per point)
/// and the health vitality grants (ten per point).
pub open spec fn stat_lines_of(totals: EquippedAttributeTotals) -> Seq<Seq<char>> {
    seq![
        "Strength "@ + decimal(totals.strength as nat),
        "Dexterity "@ + decimal(totals.dexterity as nat),
        "Intelligence "@ + decimal(totals.intelligence as nat),
        "Vitality "@ + decimal(totals.vitality as nat),
        "Attack damage +"@ + decimal(totals.strength as nat) + "%"@,
        "Max health +"@ + decimal(totals.vitality as nat * 10),
    ]
}

pub fn stat_lines(totals: &EquippedAttributeTotals) -> (r: Vec<String>)
    ensures
        r@.len() == 6,
        forall|i: int| 0 <= i < 6 ==> #[trigger] r@[i]@ == stat_lines_of(*totals)[i],
{
    let mut lines: Vec<String> = Vec::new();
    lines.push(labelled_number("Strength ", totals.strength as u128, ""));
    lines.push(labelled_number("Dexterity ", totals.dexterity as u128, ""));
    lines.push(labelled_number("Intelligence ", totals.intelligence as u128, ""));
    lines.push(labelled_number("Vitality ", totals.vitality as u128, ""));
    lines.push(labelled_number("Attack damage +", totals.strength as u128, "%"));
    lines.push(labelled_number("Max health +", totals.vitality as u128 * 10, ""));
    proof {
        reveal_strlit("");
        assert forall|i: int| 0 <= i < 6 implies #[trigger] lines@[i]@ == stat_lines_of(*totals)[i] by {
            assert(lines@[0]@ =~= stat_lines_of(*totals)[0]);
            assert(lines@[1]@ =~= stat_lines_of(*totals)[1]);
            assert(lines@[2]@ =~= stat_lines_of(*totals)[2]);
            assert(lines@[3]@ =~= stat_lines_of(*totals)[3]);
            assert(lines@[5]@ =~= stat_lines_of(*totals)[5]);
        }
    }
    lines
}

/// The detail lines of an item tooltip: when the item has affixes, a heading
/// and one label per affix; then the item id.
pub open spec fn detail_lines_of(item: InventoryItem) -> Seq<Seq<char>> {
    let heading = if item.affixes@.len() > 0 {
        seq!["Crafted affixes"@]
    } else {
        Seq::<Seq<char>>::empty()
    };
    heading + item.affixes@.map_values(|a: CraftingAffix| a.label_text()) + seq![item.item_id@]
}

pub fn tooltip_detail_lines(item: &InventoryItem) -> (r: Vec<String>)
    ensures
        r@.len() == detail_lines_of(*item).len(),
        forall|i: int| 0 <= i < r@.len() ==> #[trigger] r@[i]@ == detail_lines_of(*item)[i],
{
    let mut lines: Vec<String> = Vec::new();
    let heading: usize = if item.affixes.len() > 0 {
        lines.push(String::from_str("Crafted affixes"));
        1
    } else {
        0
    };
    let ghost spec_lines = detail_lines_of(*item);
    let mut i: usize = 0;
    while i < item.affixes.len()
        invariant
            i <= item.affixes@.len(),
            heading == (if item.affixes@.len() > 0 { 1usize } else { 0usize }),
            spec_lines == detail_lines_of(*item),
            lines@.len() == heading + i,
            forall|j: int| 0 <= j < lines@.len() ==> #[trigger] lines@[j]@ == spec_lines[j],
        decreases item.affixes@.len() - i,
    {
        lines.push(item.affixes[i].label());
        i += 1;
    }
    lines.push(item.item_id.clone());
    lines
}

/// The name shown for an item: the weapon's name when the weapon data has
/// one, the item id otherwise.
pub fn display_name<'a>(item: &'a InventoryItem, weapon_name: Option<&'a str>) -> (r: &'a str)
    ensures
        weapon_name matches Some(name) ==> r@ == name@,
        weapon_name is None ==> r@ == item.item_id@,
{
    match weapon_name {
        Some(name) => name,
        None => item.item_id.as_str(),
    }
}

} // verus!
