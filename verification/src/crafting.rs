//! Crafting materials and the affixes that crafting rolls onto items.

use vstd::prelude::*;

use crate::inventory::InventoryItem;
use crate::random::random_below;
use crate::rarity::ItemRarity;
use crate::text::{append_decimal, append_text, decimal};

verus! {

/// Highest quality an item can be improved to.
pub const MAX_ITEM_QUALITY: u8 = 20;

/// Amount of every material in a fresh stock.
pub const STARTER_MATERIAL_AMOUNT: u32 = 999;

/// The consumables that crafting actions spend.
#[derive(Debug, Clone, Copy, PartialEq, Eq, Hash, Structural)]
pub enum CraftingMaterial {
    Whetstone,
    Ember,
    ReforgeOre,
    Essence,
}

impl CraftingMaterial {
    /// Every material, in stock order.
    pub const ALL: [CraftingMaterial; 4] = [
        CraftingMaterial::Whetstone,
        CraftingMaterial::Ember,
        CraftingMaterial::ReforgeOre,
        CraftingMaterial::Essence,
    ];

    /// Position of the material's stack.
    pub open spec fn slot(self) -> nat {
        match self {
            CraftingMaterial::Whetstone => 0,
            CraftingMaterial::Ember => 1,
            CraftingMaterial::ReforgeOre => 2,
            CraftingMaterial::Essence => 3,
        }
    }

    pub open spec fn label_text(self) -> Seq<char> {
        match self {
            CraftingMaterial::Whetstone => "Whetstone"@,
            CraftingMaterial::Ember => "Ember"@,
            CraftingMaterial::ReforgeOre => "Reforge Ore"@,
            CraftingMaterial::Essence => "Essence"@,
        }
    }

    pub fn index(self) -> (r: usize)
        ensures
            r == self.slot(),
    {
        match self {
            CraftingMaterial::Whetstone => 0,
            CraftingMaterial::Ember => 1,
            CraftingMaterial::ReforgeOre => 2,
            CraftingMaterial::Essence => 3,
        }
    }

    pub fn label(self) -> (r: &'static str)
        ensures
            r@ == self.label_text(),
    {
        match self {
            CraftingMaterial::Whetstone => "Whetstone",
            CraftingMaterial::Ember => "Ember",
            CraftingMaterial::ReforgeOre => "Reforge Ore",
            CraftingMaterial::Essence => "Essence",
        }
    }
}

/// The player's stock of crafting materials, one stack per material.
#[derive(Debug)]
pub struct CraftingMaterials {
    stacks: [u32; 4],
}

impl CraftingMaterials {
    /// The stack of each material, indexed by its slot.
    pub closed spec fn stack_amounts(self) -> Seq<u32> {
        self.stacks@
    }

    /// How much of `material` the stock holds.
    pub open spec fn amount_of(self, material: CraftingMaterial) -> u32 {
        self.stack_amounts()[material.slot() as int]
    }

    /// The stock holds one stack per material.
    pub proof fn lemma_one_stack_per_material(self)
        ensures
            self.stack_amounts().len() == 4,
            forall|m: CraftingMaterial| #[trigger] m.slot() < self.stack_amounts().len(),
    {
    }

    /// A stock with `999` of every material.
    pub fn starter() -> (r: CraftingMaterials)
        ensures
            forall|m: CraftingMaterial| #[trigger] r.amount_of(m) == STARTER_MATERIAL_AMOUNT,
            r.stack_amounts().len() == 4,
    {
        CraftingMaterials { stacks: [STARTER_MATERIAL_AMOUNT; 4] }
    }

    pub fn amount(&self, material: CraftingMaterial) -> (r: u32)
        ensures
            r == self.amount_of(material),
    {
        self.stacks[material.index()]
    }

    pub fn can_spend(&self, material: CraftingMaterial, amount: u32) -> (r: bool)
        ensures
            r == (self.amount_of(material) >= amount),
    {
        self.amount(material) >= amount
    }

    /// Takes `amount` of `material` from the stock when the stock holds that much.
    pub fn spend(&mut self, material: CraftingMaterial, amount: u32) -> (r: bool)
        ensures
            r == (old(self).amount_of(material) >= amount),
            r ==> final(self).stack_amounts() == old(self).stack_amounts().update(
                material.slot() as int,
                (old(self).amount_of(material) - amount) as u32,
            ),
            !r ==> final(self).stack_amounts() == old(self).stack_amounts(),
            r ==> final(self).amount_of(material) == old(self).amount_of(material) - amount,
            forall|other: CraftingMaterial|
                other != material ==> #[trigger] final(self).amount_of(other) == old(self).amount_of(
                    other,
                ),
    {
        if !self.can_spend(material, amount) {
            return false;
        }
        let i = material.index();
        let left = self.stacks[i] - amount;
        self.stacks[i] = left;
        true
    }
}

impl Clone for CraftingMaterials {
    fn clone(&self) -> (r: CraftingMaterials)
        ensures
            r == *self,
    {
        CraftingMaterials { stacks: self.stacks }
    }
}

impl Default for CraftingMaterials {
    fn default() -> (r: CraftingMaterials)
        ensures
            forall|m: CraftingMaterial| #[trigger] r.amount_of(m) == STARTER_MATERIAL_AMOUNT,
            r.stack_amounts().len() == 4,
    {
        CraftingMaterials::starter()
    }
}


/// Name of the strength attribute.
pub const STRENGTH: &'static str = "Strength";

/// Name of the dexterity attribute.
pub const DEXTERITY: &'static str = "Dexterity";

/// Name of the intelligence attribute.
pub const INTELLIGENCE: &'static str = "Intelligence";

/// Name of the vitality attribute.
pub const VITALITY: &'static str = "Vitality";

/// Number of distinct affix families.
pub const AFFIX_KIND_COUNT: usize = 9;

/// The families of affixes an item can carry.
#[derive(Debug, Clone, Copy, PartialEq, Eq, Hash, Structural)]
pub enum CraftingAffixKind {
    Damage,
    AttackSpeed,
    Range,
    ProjectileSpeed,
    CriticalChance,
    Strength,
    Dexterity,
    Intelligence,
    Vitality,
}

impl CraftingAffixKind {
    /// Position of the family in the order in which families are offered.
    pub open spec fn order(self) -> nat {
        match self {
            CraftingAffixKind::Damage => 0,
            CraftingAffixKind::AttackSpeed => 1,
            CraftingAffixKind::Range => 2,
            CraftingAffixKind::ProjectileSpeed => 3,
            CraftingAffixKind::CriticalChance => 4,
            CraftingAffixKind::Strength => 5,
            CraftingAffixKind::Dexterity => 6,
            CraftingAffixKind::Intelligence => 7,
            CraftingAffixKind::Vitality => 8,
        }
    }

    /// The family at a given position of the order.
    pub open spec fn at_order(i: nat) -> CraftingAffixKind {
        if i == 0 {
            CraftingAffixKind::Damage
        } else if i == 1 {
            CraftingAffixKind::AttackSpeed
        } else if i == 2 {
            CraftingAffixKind::Range
        } else if i == 3 {
            CraftingAffixKind::ProjectileSpeed
        } else if i == 4 {
            CraftingAffixKind::CriticalChance
        } else if i == 5 {
            CraftingAffixKind::Strength
        } else if i == 6 {
            CraftingAffixKind::Dexterity
        } else if i == 7 {
            CraftingAffixKind::Intelligence
        } else {
            CraftingAffixKind::Vitality
        }
    }

    pub open spec fn label_text(self) -> Seq<char> {
        match self {
            CraftingAffixKind::Damage => "Damage"@,
            CraftingAffixKind::AttackSpeed => "Attack Speed"@,
            CraftingAffixKind::Range => "Range"@,
            CraftingAffixKind::ProjectileSpeed => "Projectile Speed"@,
            CraftingAffixKind::CriticalChance => "Critical Chance"@,
            CraftingAffixKind::Strength => "Strength"@,
            CraftingAffixKind::Dexterity => "Dexterity"@,
            CraftingAffixKind::Intelligence => "Intelligence"@,
            CraftingAffixKind::Vitality => "Vitality"@,
        }
    }

    /// Families whose value is a percentage bonus rather than a flat attribute.
    pub open spec fn percent(self) -> bool {
        match self {
            CraftingAffixKind::Damage
            | CraftingAffixKind::AttackSpeed
            | CraftingAffixKind::Range
            | CraftingAffixKind::ProjectileSpeed
            | CraftingAffixKind::CriticalChance => true,
            _ => false,
        }
    }

    pub fn from_index(i: usize) -> (r: CraftingAffixKind)
        requires
            i < AFFIX_KIND_COUNT,
        ensures
            r == CraftingAffixKind::at_order(i as nat),
            r.order() == i,
    {
        if i == 0 {
            CraftingAffixKind::Damage
        } else if i == 1 {
            CraftingAffixKind::AttackSpeed
        } else if i == 2 {
            CraftingAffixKind::Range
        } else if i == 3 {
            CraftingAffixKind::ProjectileSpeed
        } else if i == 4 {
            CraftingAffixKind::CriticalChance
        } else if i == 5 {
            CraftingAffixKind::Strength
        } else if i == 6 {
            CraftingAffixKind::Dexterity
        } else if i == 7 {
            CraftingAffixKind::Intelligence
        } else {
            CraftingAffixKind::Vitality
        }
    }

    pub fn label(self) -> (r: &'static str)
        ensures
            r@ == self.label_text(),
    {
        match self {
            CraftingAffixKind::Damage => "Damage",
            CraftingAffixKind::AttackSpeed => "Attack Speed",
            CraftingAffixKind::Range => "Range",
            CraftingAffixKind::ProjectileSpeed => "Projectile Speed",
            CraftingAffixKind::CriticalChance => "Critical Chance",
            CraftingAffixKind::Strength => "Strength",
            CraftingAffixKind::Dexterity => "Dexterity",
            CraftingAffixKind::Intelligence => "Intelligence",
            CraftingAffixKind::Vitality => "Vitality",
        }
    }

    pub fn is_percent(self) -> (r: bool)
        ensures
            r == self.percent(),
            r <==> self.order() < 5,
    {
        match self {
            CraftingAffixKind::Damage
            | CraftingAffixKind::AttackSpeed
            | CraftingAffixKind::Range
            | CraftingAffixKind::ProjectileSpeed
            | CraftingAffixKind::CriticalChance => true,
            _ => false,
        }
    }

    /// The families that do not occur in `used`, in offering order.
    pub fn available(used: &[CraftingAffixKind]) -> (r: Vec<CraftingAffixKind>)
        ensures
            r@ == available_kinds(used@),
    {
        let mut r: Vec<CraftingAffixKind> = Vec::new();
        let mut i: usize = 0;
        while i < AFFIX_KIND_COUNT
            invariant
                i <= AFFIX_KIND_COUNT,
                r@ == kinds_not_in(used@, i as nat),
            decreases AFFIX_KIND_COUNT - i,
        {
            let kind = CraftingAffixKind::from_index(i);
            if !kind_listed(used, kind) {
                r.push(kind);
            }
            i += 1;
        }
        r
    }

    /// A family drawn at random among those that do not occur in `used`,
    /// or `None` when every family occurs.
    pub fn random_available(used: &[CraftingAffixKind]) -> (r: Option<CraftingAffixKind>)
        ensures
            r is None <==> available_kinds(used@).len() == 0,
            r matches Some(k) ==> available_kinds(used@).contains(k) && !used@.contains(k),
    {
        let available = CraftingAffixKind::available(used);
        if available.len() == 0 {
            return None;
        }
        let choice = random_below(available.len());
        proof {
            lemma_available_contains(used@, available@[choice as int], AFFIX_KIND_COUNT as nat);
        }
        Some(available[choice])
    }
}

/// Whether `kind` occurs in `used`.
pub fn kind_listed(used: &[CraftingAffixKind], kind: CraftingAffixKind) -> (r: bool)
    ensures
        r == used@.contains(kind),
{
    let mut i: usize = 0;
    while i < used.len()
        invariant
            i <= used@.len(),
            forall|j: int| 0 <= j < i ==> used@[j] != kind,
        decreases used@.len() - i,
    {
        if used[i] == kind {
            return true;
        }
        i += 1;
    }
    false
}

/// Among the first `n` families in offering order, those that do not occur in `used`.
pub open spec fn kinds_not_in(used: Seq<CraftingAffixKind>, n: nat) -> Seq<CraftingAffixKind>
    decreases n,
{
    if n == 0 {
        Seq::empty()
    } else {
        let prev = kinds_not_in(used, (n - 1) as nat);
        let kind = CraftingAffixKind::at_order((n - 1) as nat);
        if used.contains(kind) {
            prev
        } else {
            prev.push(kind)
        }
    }
}

/// The families that do not occur in `used`, in offering order.
pub open spec fn available_kinds(used: Seq<CraftingAffixKind>) -> Seq<CraftingAffixKind> {
    kinds_not_in(used, AFFIX_KIND_COUNT as nat)
}

proof fn lemma_order_roundtrip(k: CraftingAffixKind)
    ensures
        CraftingAffixKind::at_order(k.order()) == k,
        k.order() < AFFIX_KIND_COUNT,
{
}

proof fn lemma_at_order_order(i: nat)
    requires
        i < AFFIX_KIND_COUNT,
    ensures
        CraftingAffixKind::at_order(i).order() == i,
{
}

/// A family is offered exactly when it comes early enough in the order and is unused.
pub proof fn lemma_available_contains(used: Seq<CraftingAffixKind>, k: CraftingAffixKind, n: nat)
    requires
        n <= AFFIX_KIND_COUNT,
    ensures
        kinds_not_in(used, n).contains(k) <==> (k.order() < n && !used.contains(k)),
    decreases n,
{
    if n > 0 {
        lemma_available_contains(used, k, (n - 1) as nat);
        lemma_order_roundtrip(k);
        lemma_at_order_order((n - 1) as nat);
        let prev = kinds_not_in(used, (n - 1) as nat);
        let kind = CraftingAffixKind::at_order((n - 1) as nat);
        if !used.contains(kind) {
            assert(prev.push(kind).contains(k) <==> (prev.contains(k) || k == kind)) by {
                if prev.push(kind).contains(k) {
                    let j = choose|j: int| 0 <= j < prev.push(kind).len() && prev.push(kind)[j] == k;
                    if j < prev.len() {
                        assert(prev[j] == k);
                    }
                }
                if prev.contains(k) {
                    let j = choose|j: int| 0 <= j < prev.len() && prev[j] == k;
                    assert(prev.push(kind)[j] == k);
                }
                if k == kind {
                    assert(prev.push(kind)[prev.len() as int] == k);
                }
            }
        }
    }
}

proof fn lemma_kinds_not_in_empty(n: nat)
    requires
        n <= AFFIX_KIND_COUNT,
    ensures
        kinds_not_in(Seq::empty(), n).len() == n,
    decreases n,
{
    if n > 0 {
        lemma_kinds_not_in_empty((n - 1) as nat);
    }
}

proof fn lemma_kinds_not_in_push(
    used: Seq<CraftingAffixKind>,
    x: CraftingAffixKind,
    n: nat,
)
    requires
        n <= AFFIX_KIND_COUNT,
    ensures
        kinds_not_in(used, n).len() == kinds_not_in(used.push(x), n).len() + (
        if x.order() < n && !used.contains(x) {
            1int
        } else {
            0int
        }),
    decreases n,
{
    if n > 0 {
        lemma_kinds_not_in_push(used, x, (n - 1) as nat);
        lemma_order_roundtrip(x);
        lemma_at_order_order((n - 1) as nat);
        let kind = CraftingAffixKind::at_order((n - 1) as nat);
        let pushed = used.push(x);
        assert(pushed.contains(kind) <==> (used.contains(kind) || kind == x)) by {
            if pushed.contains(kind) {
                let j = choose|j: int| 0 <= j < pushed.len() && pushed[j] == kind;
                if j < used.len() {
                    assert(used[j] == kind);
                }
            }
            if used.contains(kind) {
                let j = choose|j: int| 0 <= j < used.len() && used[j] == kind;
                assert(pushed[j] == kind);
            }
            if kind == x {
                assert(pushed[used.len() as int] == kind);
            }
        }
    }
}

/// At least as many families stay on offer as there are unused slots among the nine.
pub proof fn lemma_available_len(used: Seq<CraftingAffixKind>)
    ensures
        available_kinds(used).len() + used.len() >= AFFIX_KIND_COUNT,
    decreases used.len(),
{
    if used.len() == 0 {
        assert(used == Seq::<CraftingAffixKind>::empty());
        lemma_kinds_not_in_empty(AFFIX_KIND_COUNT as nat);
    } else {
        let prefix = used.drop_last();
        lemma_available_len(prefix);
        assert(prefix.push(used.last()) == used);
        lemma_kinds_not_in_push(prefix, used.last(), AFFIX_KIND_COUNT as nat);
    }
}

/// One affix: a family, a tier and a value rolled for that tier.
#[derive(Debug, Clone, Copy, PartialEq, Eq, Hash, Structural)]
pub struct CraftingAffix {
    pub kind: CraftingAffixKind,
    pub tier: u8,
    pub value: u8,
}

/// The tier that a percentile roll in `0..100` gives: 60% tier 1, 27% tier 2,
/// 11% tier 3 and 2% tier 4.
pub open spec fn tier_of_roll(roll: nat) -> u8 {
    if roll <= 59 {
        1
    } else if roll <= 86 {
        2
    } else if roll <= 97 {
        3
    } else {
        4
    }
}

/// The tier that a percentile roll gives.
pub fn tier_for_roll(roll: usize) -> (r: u8)
    ensures
        r == tier_of_roll(roll as nat),
{
    if roll <= 59 {
        1
    } else if roll <= 86 {
        2
    } else if roll <= 97 {
        3
    } else {
        4
    }
}

/// Rolls an affix tier from a percentile drawn at random.
pub fn roll_affix_tier() -> (r: u8)
    ensures
        1 <= r <= 4,
{
    let roll = random_below(100);
    tier_for_roll(roll)
}

impl CraftingAffix {
    /// `self` could have come out of rolling an affix of family `kind`: a tier
    /// from one to four and a value between five times the tier and five more.
    pub open spec fn rolled_as(self, kind: CraftingAffixKind) -> bool {
        &&& self.kind == kind
        &&& 1 <= self.tier <= 4
        &&& self.tier * 5 <= self.value <= self.tier * 5 + 5
    }

    /// The affix given by a tier and an offset above the tier's lowest value.
    pub fn from_rolls(kind: CraftingAffixKind, tier: u8, offset: usize) -> (r: CraftingAffix)
        requires
            1 <= tier <= 4,
            offset <= 5,
        ensures
            r.kind == kind,
            r.tier == tier,
            r.value == tier * 5 + offset,
            r.rolled_as(kind),
    {
        let low = tier * 5;
        let value = low + (offset as u8);
        CraftingAffix { kind, tier, value }
    }

    /// A fresh affix of family `kind` with a random tier and a random value for it.
    pub fn random(kind: CraftingAffixKind) -> (r: CraftingAffix)
        ensures
            r.rolled_as(kind),
    {
        let tier = roll_affix_tier();
        let offset = random_below(6);
        CraftingAffix::from_rolls(kind, tier, offset)
    }

    /// The displayed text of the affix: `T<tier> <family> +<value>%` for a
    /// percentage family, `T<tier> +<value> <family>` for an attribute.
    pub open spec fn label_text(self) -> Seq<char> {
        if self.kind.percent() {
            "T"@ + decimal(self.tier as nat) + " "@ + self.kind.label_text() + " +"@ + decimal(
                self.value as nat,
            ) + "%"@
        } else {
            "T"@ + decimal(self.tier as nat) + " +"@ + decimal(self.value as nat) + " "@
                + self.kind.label_text()
        }
    }

    pub fn label(self) -> (r: String)
        ensures
            r@ == self.label_text(),
    {
        let mut out = String::new();
        append_text(&mut out, "T");
        append_decimal(&mut out, self.tier as u128);
        if self.kind.is_percent() {
            append_text(&mut out, " ");
            append_text(&mut out, self.kind.label());
            append_text(&mut out, " +");
            append_decimal(&mut out, self.value as u128);
            append_text(&mut out, "%");
        } else {
            append_text(&mut out, " +");
            append_decimal(&mut out, self.value as u128);
            append_text(&mut out, " ");
            append_text(&mut out, self.kind.label());
        }
        out
    }

    /// The attribute an affix raises, with the flat amount, for the attribute families.
    pub open spec fn attribute_bonus(self) -> Option<(&'static str, u8)> {
        match self.kind {
            CraftingAffixKind::Strength => Some((STRENGTH, self.value)),
            CraftingAffixKind::Dexterity => Some((DEXTERITY, self.value)),
            CraftingAffixKind::Intelligence => Some((INTELLIGENCE, self.value)),
            CraftingAffixKind::Vitality => Some((VITALITY, self.value)),
            _ => None,
        }
    }

    pub fn attribute_modifier(self) -> (r: Option<(&'static str, u8)>)
        ensures
            r == self.attribute_bonus(),
            r is Some <==> !self.kind.percent(),
            r matches Some((name, amount)) ==> name@ == self.kind.label_text() && amount
                == self.value,
    {
        match self.kind {
            CraftingAffixKind::Strength => Some((STRENGTH, self.value)),
            CraftingAffixKind::Dexterity => Some((DEXTERITY, self.value)),
            CraftingAffixKind::Intelligence => Some((INTELLIGENCE, self.value)),
            CraftingAffixKind::Vitality => Some((VITALITY, self.value)),
            _ => None,
        }
    }
}


/// The families of a list of affixes, in the same order.
pub open spec fn kinds_of(affixes: Seq<CraftingAffix>) -> Seq<CraftingAffixKind> {
    affixes.map_values(|a: CraftingAffix| a.kind)
}

/// No family occurs twice among `affixes`.
pub open spec fn distinct_kinds(affixes: Seq<CraftingAffix>) -> bool {
    forall|i: int, j: int|
        0 <= i < affixes.len() && 0 <= j < affixes.len() && i != j ==> affixes[i].kind
            != affixes[j].kind
}

/// How many affixes an item of `rarity` can carry: none for common items,
/// one more for each step of rarity, five for mythic ones.
pub open spec fn capacity_of(rarity: ItemRarity) -> nat {
    rarity.rank()
}

impl InventoryItem {
    /// What crafting keeps true of an item: no affix family twice, no more
    /// affixes than the rarity allows, and quality within the cap.
    pub open spec fn well_crafted(self) -> bool {
        &&& distinct_kinds(self.affixes@)
        &&& self.affixes@.len() <= capacity_of(self.rarity)
        &&& self.quality <= MAX_ITEM_QUALITY
    }

    pub open spec fn has_open_affix_slot(self) -> bool {
        self.affixes@.len() < capacity_of(self.rarity) && self.affixes@.len() < AFFIX_KIND_COUNT
    }

    /// Only the affixes of the item differ between `self` and `other`.
    pub open spec fn same_besides_affixes(self, other: InventoryItem) -> bool {
        &&& self.item_id == other.item_id
        &&& self.rarity == other.rarity
        &&& self.quality == other.quality
    }

    pub fn affix_capacity(&self) -> (r: usize)
        ensures
            r == capacity_of(self.rarity),
    {
        self.rarity.index()
    }

    pub fn can_improve_quality(&self) -> (r: bool)
        ensures
            r == (self.quality < MAX_ITEM_QUALITY),
    {
        self.quality < MAX_ITEM_QUALITY
    }

    pub fn can_add_affix(&self) -> (r: bool)
        ensures
            r == self.has_open_affix_slot(),
    {
        self.affixes.len() < self.affix_capacity() && self.affixes.len() < AFFIX_KIND_COUNT
    }

    pub fn can_reforge_affix(&self) -> (r: bool)
        ensures
            r == (self.affixes@.len() > 0),
    {
        self.affixes.len() > 0
    }

    pub fn can_guarantee_affix(&self) -> (r: bool)
        ensures
            r == (self.has_open_affix_slot() || self.affixes@.len() > 0),
    {
        self.can_add_affix() || self.can_reforge_affix()
    }

    /// Raises the quality by two, up to twenty; fails when the quality is at twenty.
    pub fn improve_quality(&mut self) -> (r: bool)
        ensures
            r == (old(self).quality < MAX_ITEM_QUALITY),
            r ==> final(self).quality == vstd::math::min(
                old(self).quality + 2,
                MAX_ITEM_QUALITY as int,
            ),
            final(self).quality == (if r {
                raised_quality(old(self).quality)
            } else {
                old(self).quality
            }),
            final(self).quality >= old(self).quality,
            final(self).item_id == old(self).item_id,
            final(self).rarity == old(self).rarity,
            final(self).affixes == old(self).affixes,
            old(self).well_crafted() ==> final(self).well_crafted(),
    {
        if !self.can_improve_quality() {
            return false;
        }
        let raised = self.quality + 2;
        self.quality = if raised <= MAX_ITEM_QUALITY {
            raised
        } else {
            MAX_ITEM_QUALITY
        };
        true
    }

    /// The families of the item's affixes, in order.
    pub fn affix_kinds(&self) -> (r: Vec<CraftingAffixKind>)
        ensures
            r@ == kinds_of(self.affixes@),
    {
        let mut r: Vec<CraftingAffixKind> = Vec::new();
        let mut i: usize = 0;
        while i < self.affixes.len()
            invariant
                i <= self.affixes@.len(),
                r@ == kinds_of(self.affixes@.take(i as int)),
            decreases self.affixes@.len() - i,
        {
            r.push(self.affixes[i].kind);
            i += 1;
            assert(r@ =~= kinds_of(self.affixes@.take(i as int)));
        }
        assert(self.affixes@.take(i as int) =~= self.affixes@);
        r
    }

    /// Rolls an affix of a family the item lacks onto it; fails when no slot is open.
    pub fn add_random_affix(&mut self) -> (r: bool)
        ensures
            r == old(self).has_open_affix_slot(),
            final(self).same_besides_affixes(*old(self)),
            r ==> affix_added(old(self).affixes@, final(self).affixes@),
            !r ==> final(self).affixes@ == old(self).affixes@,
            old(self).well_crafted() ==> final(self).well_crafted(),
    {
        if !self.can_add_affix() {
            return false;
        }
        let used = self.affix_kinds();
        proof {
            lemma_available_len(used@);
        }
        let kind = match CraftingAffixKind::random_available(used.as_slice()) {
            Some(kind) => kind,
            None => return false,
        };
        let affix = CraftingAffix::random(kind);
        self.affixes.push(affix);
        proof {
            assert(self.affixes@.drop_last() =~= old(self).affixes@);
            let n = old(self).affixes@.len();
            assert forall|i: int| 0 <= i < n implies #[trigger] self.affixes@[i].kind != kind by {
                assert(kinds_of(old(self).affixes@)[i] == old(self).affixes@[i].kind);
            }
        }
        true
    }

    /// Replaces the affix at `index` by a freshly rolled one. Its family is
    /// `forced_kind` when given; otherwise it is drawn among the families that
    /// no other affix has, and stays the same when there is none.
    pub fn reforge_affix_at(&mut self, index: usize, forced_kind: Option<CraftingAffixKind>)
        requires
            index < old(self).affixes@.len(),
        ensures
            final(self).same_besides_affixes(*old(self)),
            final(self).affixes@ == old(self).affixes@.update(
                index as int,
                final(self).affixes@[index as int],
            ),
            final(self).affixes@[index as int].rolled_as(final(self).affixes@[index as int].kind),
            reforged_kind_allowed(
                old(self).affixes@,
                index as int,
                forced_kind,
                final(self).affixes@[index as int].kind,
            ),
            old(self).well_crafted() && forced_kind is None ==> final(self).well_crafted(),
    {
        let mut used: Vec<CraftingAffixKind> = Vec::new();
        let mut i: usize = 0;
        while i < self.affixes.len()
            invariant
                i <= self.affixes@.len(),
                index < self.affixes@.len(),
                used@ == kinds_of(without_index(self.affixes@.take(i as int), index as int)),
            decreases self.affixes@.len() - i,
        {
            if i != index {
                used.push(self.affixes[i].kind);
            }
            i += 1;
            assert(used@ =~= kinds_of(without_index(self.affixes@.take(i as int), index as int)));
        }
        assert(self.affixes@.take(i as int) =~= self.affixes@);
        let kind = match forced_kind {
            Some(kind) => kind,
            None => match CraftingAffixKind::random_available(used.as_slice()) {
                Some(kind) => kind,
                None => self.affixes[index].kind,
            },
        };
        let affix = CraftingAffix::random(kind);
        self.affixes.set(index, affix);
        proof {
            if old(self).well_crafted() && forced_kind is None {
                lemma_replace_keeps_distinct(old(self).affixes@, index as int, affix);
            }
        }
    }

    /// Rerolls one affix chosen at random; fails when the item has none.
    pub fn reforge_random_affix(&mut self) -> (r: bool)
        ensures
            r == (old(self).affixes@.len() > 0),
            final(self).same_besides_affixes(*old(self)),
            !r ==> final(self).affixes@ == old(self).affixes@,
            r ==> affix_rerolled(old(self).affixes@, final(self).affixes@),
            old(self).well_crafted() ==> final(self).well_crafted(),
    {
        if !self.can_reforge_affix() {
            return false;
        }
        let index = random_below(self.affixes.len());
        self.reforge_affix_at(index, None);
        true
    }

    /// Makes sure the item carries an attack-speed affix: rerolls the one it
    /// has, adds one in an open slot, or else replaces a random affix by one.
    pub fn guarantee_speed_affix(&mut self) -> (r: bool)
        ensures
            r == (old(self).has_open_affix_slot() || old(self).affixes@.len() > 0),
            final(self).same_besides_affixes(*old(self)),
            !r ==> final(self).affixes@ == old(self).affixes@,
            r ==> speed_guaranteed(
                old(self).affixes@,
                old(self).has_open_affix_slot(),
                final(self).affixes@,
            ),
            r ==> kinds_of(final(self).affixes@).contains(CraftingAffixKind::AttackSpeed),
            old(self).well_crafted() ==> final(self).well_crafted(),
    {
        if !self.can_guarantee_affix() {
            return false;
        }
        let mut i: usize = 0;
        while i < self.affixes.len()
            invariant
                i <= self.affixes@.len(),
                self.affixes@ == old(self).affixes@,
                self.same_besides_affixes(*old(self)),
                forall|j: int| 0 <= j < i ==> self.affixes@[j].kind != CraftingAffixKind::AttackSpeed,
            decreases self.affixes@.len() - i,
        {
            if self.affixes[i].kind == CraftingAffixKind::AttackSpeed {
                let affix = CraftingAffix::random(CraftingAffixKind::AttackSpeed);
                self.affixes.set(i, affix);
                proof {
                    assert(kinds_of(old(self).affixes@)[i as int] == CraftingAffixKind::AttackSpeed);
                    assert(self.affixes@ == old(self).affixes@.update(i as int, self.affixes@[i as int]));
                    if old(self).well_crafted() {
                        lemma_replace_same_kind_keeps_distinct(old(self).affixes@, i as int, affix);
                    }
                    assert(kinds_of(self.affixes@)[i as int] == CraftingAffixKind::AttackSpeed);
                }
                return true;
            }
            i += 1;
        }
        proof {
            assert forall|j: int| 0 <= j < old(self).affixes@.len() implies #[trigger] kinds_of(
                old(self).affixes@,
            )[j] != CraftingAffixKind::AttackSpeed by {}
        }
        if self.can_add_affix() {
            let affix = CraftingAffix::random(CraftingAffixKind::AttackSpeed);
            self.affixes.push(affix);
            proof {
                assert(self.affixes@.drop_last() =~= old(self).affixes@);
                let last = self.affixes@.len() - 1;
                assert(kinds_of(self.affixes@)[last] == CraftingAffixKind::AttackSpeed);
            }
            return true;
        }
        let index = random_below(self.affixes.len());
        let affix = CraftingAffix::random(CraftingAffixKind::AttackSpeed);
        self.affixes.set(index, affix);
        proof {
            assert(self.affixes@ == old(self).affixes@.update(index as int, self.affixes@[index as int]));
            if old(self).well_crafted() {
                lemma_replace_keeps_distinct(old(self).affixes@, index as int, affix);
            }
            assert(kinds_of(self.affixes@)[index as int] == CraftingAffixKind::AttackSpeed);
        }
        true
    }
}

/// Quality after one improvement: two more, capped at twenty.
pub open spec fn raised_quality(quality: u8) -> u8 {
    if quality + 2 <= MAX_ITEM_QUALITY {
        (quality + 2) as u8
    } else {
        MAX_ITEM_QUALITY
    }
}

/// `after` is `before` with one freshly rolled affix of a new family at the end.
pub open spec fn affix_added(before: Seq<CraftingAffix>, after: Seq<CraftingAffix>) -> bool {
    &&& after.len() == before.len() + 1
    &&& after.drop_last() == before
    &&& after.last().rolled_as(after.last().kind)
    &&& !kinds_of(before).contains(after.last().kind)
}

/// `after` is `before` with one affix replaced by a freshly rolled one of an
/// allowed family.
pub open spec fn affix_rerolled(before: Seq<CraftingAffix>, after: Seq<CraftingAffix>) -> bool {
    exists|index: int|
        0 <= index < before.len() && after == #[trigger] before.update(index, after[index])
            && after[index].rolled_as(after[index].kind) && reforged_kind_allowed(
            before,
            index,
            None,
            after[index].kind,
        )
}

/// `after` is `before` with an attack-speed affix guaranteed: the first
/// attack-speed affix rerolled; else, with an open slot, a new one at the end;
/// else one affix replaced by a new attack-speed one.
pub open spec fn speed_guaranteed(
    before: Seq<CraftingAffix>,
    open_slot: bool,
    after: Seq<CraftingAffix>,
) -> bool {
    let speed = CraftingAffixKind::AttackSpeed;
    &&& kinds_of(before).contains(speed) ==> exists|index: int|
        0 <= index < before.len() && before[index].kind == speed && (forall|j: int|
            0 <= j < index ==> before[j].kind != speed) && after == #[trigger] before.update(
            index,
            after[index],
        ) && after[index].rolled_as(speed)
    &&& !kinds_of(before).contains(speed) && open_slot ==> after.len() == before.len() + 1
        && after.drop_last() == before && after.last().rolled_as(speed)
    &&& !kinds_of(before).contains(speed) && !open_slot ==> exists|index: int|
        0 <= index < before.len() && after == #[trigger] before.update(index, after[index])
            && after[index].rolled_as(speed)
}

/// The family that a reroll of the affix at `index` may get: the forced one when
/// given; else one that no other affix has, or the same one when every family
/// is taken by the others.
pub open spec fn reforged_kind_allowed(
    affixes: Seq<CraftingAffix>,
    index: int,
    forced_kind: Option<CraftingAffixKind>,
    kind: CraftingAffixKind,
) -> bool {
    let others = kinds_of(affixes.remove(index));
    match forced_kind {
        Some(forced) => kind == forced,
        None => if available_kinds(others).len() == 0 {
            kind == affixes[index].kind
        } else {
            !others.contains(kind)
        },
    }
}

/// `s` without the element at `index`, or all of `s` when `index` lies beyond it.
pub open spec fn without_index<A>(s: Seq<A>, index: int) -> Seq<A> {
    if 0 <= index < s.len() {
        s.remove(index)
    } else {
        s
    }
}

/// Replacing one affix by one of a family that none of the others has keeps
/// the families distinct.
proof fn lemma_replace_keeps_distinct(affixes: Seq<CraftingAffix>, index: int, affix: CraftingAffix)
    requires
        0 <= index < affixes.len(),
        distinct_kinds(affixes),
        !kinds_of(affixes.remove(index)).contains(affix.kind) || affix.kind == affixes[index].kind,
    ensures
        distinct_kinds(affixes.update(index, affix)),
{
    let others = affixes.remove(index);
    let updated = affixes.update(index, affix);
    assert forall|i: int, j: int|
        0 <= i < updated.len() && 0 <= j < updated.len() && i != j implies updated[i].kind
        != updated[j].kind by {
        if i == index && affix.kind != affixes[index].kind {
            let k = if j < index {
                j
            } else {
                j - 1
            };
            assert(others[k] == affixes[j]);
            assert(kinds_of(others)[k] == affixes[j].kind);
        } else if j == index && affix.kind != affixes[index].kind {
            let k = if i < index {
                i
            } else {
                i - 1
            };
            assert(others[k] == affixes[i]);
            assert(kinds_of(others)[k] == affixes[i].kind);
        }
    }
}

proof fn lemma_replace_same_kind_keeps_distinct(
    affixes: Seq<CraftingAffix>,
    index: int,
    affix: CraftingAffix,
)
    requires
        0 <= index < affixes.len(),
        distinct_kinds(affixes),
        affix.kind == affixes[index].kind,
    ensures
        distinct_kinds(affixes.update(index, affix)),
{
    lemma_replace_keeps_distinct(affixes, index, affix);
}

} // verus!

verus! {

/// Each step of rarity allows one more affix.
pub proof fn lemma_capacity_grows_with_rarity(lower: ItemRarity, higher: ItemRarity)
    requires
        lower.rank() < higher.rank(),
    ensures
        capacity_of(lower) < capacity_of(higher),
        capacity_of(higher) - capacity_of(lower) == higher.rank() - lower.rank(),
{
}

/// Whatever its tier, a rolled affix has a value from five to twenty-five.
pub proof fn lemma_rolled_value_range(affix: CraftingAffix, kind: CraftingAffixKind)
    requires
        affix.rolled_as(kind),
    ensures
        5 <= affix.value <= 25,
        1 <= affix.tier <= 4,
{
}

/// A fresh item, without affixes and of quality zero, is well crafted.
pub proof fn lemma_fresh_item_well_crafted(item: InventoryItem)
    requires
        item.affixes@.len() == 0,
        item.quality == 0,
    ensures
        item.well_crafted(),
{
}

} // verus!

verus! {

/// The percentage families are the first five in offering order, and exactly
/// the families whose affixes grant no attribute.
pub proof fn lemma_percent_families(kind: CraftingAffixKind)
    ensures
        kind.percent() <==> kind.order() < 5,
        kind.percent() <==> (CraftingAffix { kind, tier: 1, value: 0 }).attribute_bonus() is None,
        !kind.percent() <==> (kind == CraftingAffixKind::Strength || kind
            == CraftingAffixKind::Dexterity || kind == CraftingAffixKind::Intelligence || kind
            == CraftingAffixKind::Vitality),
{
}

/// An attribute affix grants its own attribute, by the family's name, and
/// exactly its value; the other affixes grant no attribute and are shown as
/// percentages, the attribute ones as flat bonuses.
pub proof fn lemma_attribute_affix_grants_own_attribute(affix: CraftingAffix)
    ensures
        affix.attribute_bonus() is Some <==> (affix.kind == CraftingAffixKind::Strength
            || affix.kind == CraftingAffixKind::Dexterity || affix.kind
            == CraftingAffixKind::Intelligence || affix.kind == CraftingAffixKind::Vitality),
        affix.attribute_bonus() matches Some((name, amount)) ==> name@ == affix.kind.label_text()
            && amount == affix.value,
        affix.attribute_bonus() is None <==> affix.kind.percent(),
        affix.attribute_bonus() is Some ==> affix.label_text() == "T"@ + decimal(
            affix.tier as nat,
        ) + " +"@ + decimal(affix.value as nat) + " "@ + affix.kind.label_text(),
        affix.attribute_bonus() is None ==> affix.label_text() == "T"@ + decimal(
            affix.tier as nat,
        ) + " "@ + affix.kind.label_text() + " +"@ + decimal(affix.value as nat) + "%"@,
{
}

/// Improving raises the quality by two, but never above twenty.
pub proof fn lemma_raised_quality(quality: u8)
    ensures
        raised_quality(quality) == vstd::math::min(quality + 2, MAX_ITEM_QUALITY as int),
        quality < MAX_ITEM_QUALITY ==> raised_quality(quality) > quality,
        raised_quality(quality) <= quality + 2,
{
}

} // verus!
