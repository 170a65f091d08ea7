//! Items, the unbounded inventory of the current run and the bounded safe inventory.

use vstd::prelude::*;

use crate::crafting::CraftingAffix;
use crate::rarity::ItemRarity;
use crate::text::{append_decimal, append_text, decimal};

verus! {

broadcast use vstd::seq_lib::group_to_multiset_ensures, vstd::multiset::group_multiset_axioms;

/// How many items the safe inventory holds at most.
pub const SAFE_INVENTORY_CAPACITY: usize = 20;

/// An item: which weapon it is, how rare, its quality and its affixes.
#[derive(Debug)]
pub struct InventoryItem {
    pub item_id: String,
    pub rarity: ItemRarity,
    pub quality: u8,
    pub affixes: Vec<CraftingAffix>,
}

impl InventoryItem {
    /// `self` and `other` describe the same item, field by field.
    pub open spec fn same_as(self, other: InventoryItem) -> bool {
        &&& self.item_id@ == other.item_id@
        &&& self.rarity == other.rarity
        &&& self.quality == other.quality
        &&& self.affixes@ == other.affixes@
    }

    /// A fresh item of quality zero without affixes.
    pub fn new(item_id: &str, rarity: ItemRarity) -> (r: InventoryItem)
        ensures
            r.item_id@ == item_id@,
            r.rarity == rarity,
            r.quality == 0,
            r.affixes@ == Seq::<CraftingAffix>::empty(),
            r.well_crafted(),
    {
        InventoryItem { item_id: item_id.to_owned(), rarity, quality: 0, affixes: Vec::new() }
    }

    /// Whether `self` and `other` describe the same item.
    pub fn equals(&self, other: &InventoryItem) -> (r: bool)
        ensures
            r == self.same_as(*other),
    {
        if self.item_id != other.item_id || self.rarity != other.rarity || self.quality
            != other.quality || self.affixes.len() != other.affixes.len() {
            return false;
        }
        let mut i: usize = 0;
        while i < self.affixes.len()
            invariant
                i <= self.affixes@.len(),
                self.affixes@.len() == other.affixes@.len(),
                forall|j: int| 0 <= j < i ==> self.affixes@[j] == other.affixes@[j],
            decreases self.affixes@.len() - i,
        {
            if self.affixes[i] != other.affixes[i] {
                return false;
            }
            i += 1;
        }
        assert(self.affixes@ =~= other.affixes@);
        true
    }

    /// A copy of the item.
    pub fn duplicate(&self) -> (r: InventoryItem)
        ensures
            r.same_as(*self),
    {
        let mut affixes: Vec<CraftingAffix> = Vec::new();
        let mut i: usize = 0;
        while i < self.affixes.len()
            invariant
                i <= self.affixes@.len(),
                affixes@ == self.affixes@.take(i as int),
            decreases self.affixes@.len() - i,
        {
            affixes.push(self.affixes[i]);
            i += 1;
            assert(affixes@ =~= self.affixes@.take(i as int));
        }
        assert(self.affixes@.take(i as int) =~= self.affixes@);
        InventoryItem {
            item_id: self.item_id.clone(),
            rarity: self.rarity,
            quality: self.quality,
            affixes,
        }
    }
}

impl Clone for InventoryItem {
    fn clone(&self) -> (r: InventoryItem)
        ensures
            r.same_as(*self),
    {
        self.duplicate()
    }
}

/// `copy` holds, position by position, the same items as `items`.
pub open spec fn same_items(copy: Seq<InventoryItem>, items: Seq<InventoryItem>) -> bool {
    &&& copy.len() == items.len()
    &&& forall|i: int| 0 <= i < items.len() ==> #[trigger] copy[i].same_as(items[i])
}

fn copy_items(items: &Vec<InventoryItem>) -> (r: Vec<InventoryItem>)
    ensures
        same_items(r@, items@),
{
    let mut r: Vec<InventoryItem> = Vec::new();
    let mut i: usize = 0;
    while i < items.len()
        invariant
            i <= items@.len(),
            r@.len() == i,
            forall|j: int| 0 <= j < i ==> #[trigger] r@[j].same_as(items@[j]),
        decreases items@.len() - i,
    {
        r.push(items[i].duplicate());
        i += 1;
    }
    r
}

/// How many of `items` have rarity `rarity`.
pub open spec fn rarity_count(items: Seq<InventoryItem>, rarity: ItemRarity) -> nat
    decreases items.len(),
{
    if items.len() == 0 {
        0
    } else {
        rarity_count(items.drop_last(), rarity) + if items.last().rarity == rarity {
            1nat
        } else {
            0nat
        }
    }
}

/// The per-rarity part of the loot summary for the first `n` rarities:
/// `<rarity> <count>` entries separated by two spaces.
pub open spec fn rarity_breakdown(items: Seq<InventoryItem>, n: nat) -> Seq<char>
    decreases n,
{
    if n == 0 {
        Seq::empty()
    } else {
        let rarity = ItemRarity::at_rank((n - 1) as nat);
        let separator = if n == 1 {
            Seq::<char>::empty()
        } else {
            "  "@
        };
        rarity_breakdown(items, (n - 1) as nat) + separator + rarity.label_text() + " "@
            + decimal(rarity_count(items, rarity))
    }
}

/// The loot summary: `Loot <total> | Common <n>  Uncommon <n>  ...  Mythic <n>`.
pub open spec fn summary_text(items: Seq<InventoryItem>) -> Seq<char> {
    "Loot "@ + decimal(items.len()) + " | "@ + rarity_breakdown(items, 6)
}

proof fn lemma_rarity_count_bound(items: Seq<InventoryItem>, rarity: ItemRarity)
    ensures
        rarity_count(items, rarity) <= items.len(),
    decreases items.len(),
{
    if items.len() > 0 {
        lemma_rarity_count_bound(items.drop_last(), rarity);
    }
}

/// The per-rarity counts of the loot summary add up to its total.
pub proof fn lemma_rarity_counts_sum(items: Seq<InventoryItem>)
    ensures
        rarity_count(items, ItemRarity::Common) + rarity_count(items, ItemRarity::Uncommon)
            + rarity_count(items, ItemRarity::Rare) + rarity_count(items, ItemRarity::Epic)
            + rarity_count(items, ItemRarity::Legendary) + rarity_count(items, ItemRarity::Mythic)
            == items.len(),
    decreases items.len(),
{
    if items.len() > 0 {
        lemma_rarity_counts_sum(items.drop_last());
    }
}

/// A rarity's count is the number of items of that rarity.
pub proof fn lemma_rarity_count_is_filter_len(items: Seq<InventoryItem>, rarity: ItemRarity)
    ensures
        rarity_count(items, rarity) == items.filter(|item: InventoryItem| item.rarity == rarity).len(),
    decreases items.len(),
{
    reveal_with_fuel(Seq::<_>::filter, 1);
    if items.len() > 0 {
        lemma_rarity_count_is_filter_len(items.drop_last(), rarity);
    }
}

/// The loot summary shows the total, then each rarity, in order, followed by
/// the number of items of that very rarity.
pub proof fn lemma_summary_entries(items: Seq<InventoryItem>)
    ensures
        summary_text(items) == ("Loot "@ + decimal(items.len()) + " | "@) + (("Common"@ + " "@
            + decimal(rarity_count(items, ItemRarity::Common))) + "  "@ + "Uncommon"@ + " "@
            + decimal(rarity_count(items, ItemRarity::Uncommon)) + "  "@ + "Rare"@ + " "@
            + decimal(rarity_count(items, ItemRarity::Rare)) + "  "@ + "Epic"@ + " "@ + decimal(
            rarity_count(items, ItemRarity::Epic),
        ) + "  "@ + "Legendary"@ + " "@ + decimal(rarity_count(items, ItemRarity::Legendary))
            + "  "@ + "Mythic"@ + " "@ + decimal(rarity_count(items, ItemRarity::Mythic))),
{
    let b0 = rarity_breakdown(items, 0);
    let b1 = rarity_breakdown(items, 1);
    let b2 = rarity_breakdown(items, 2);
    let b3 = rarity_breakdown(items, 3);
    let b4 = rarity_breakdown(items, 4);
    let b5 = rarity_breakdown(items, 5);
    let b6 = rarity_breakdown(items, 6);
    assert(b0 == Seq::<char>::empty());
    assert(b1 =~= "Common"@ + " "@ + decimal(rarity_count(items, ItemRarity::Common)));
    assert(b2 == b1 + "  "@ + "Uncommon"@ + " "@ + decimal(
        rarity_count(items, ItemRarity::Uncommon),
    ));
    assert(b3 == b2 + "  "@ + "Rare"@ + " "@ + decimal(rarity_count(items, ItemRarity::Rare)));
    assert(b4 == b3 + "  "@ + "Epic"@ + " "@ + decimal(rarity_count(items, ItemRarity::Epic)));
    assert(b5 == b4 + "  "@ + "Legendary"@ + " "@ + decimal(
        rarity_count(items, ItemRarity::Legendary),
    ));
    assert(b6 == b5 + "  "@ + "Mythic"@ + " "@ + decimal(rarity_count(items, ItemRarity::Mythic)));
}

/// Adding an item raises the count of its own rarity by one and leaves the
/// other counts as they were.
pub proof fn lemma_rarity_count_push(items: Seq<InventoryItem>, item: InventoryItem, rarity: ItemRarity)
    ensures
        rarity_count(items.push(item), rarity) == rarity_count(items, rarity) + if item.rarity
            == rarity {
            1nat
        } else {
            0nat
        },
{
    assert(items.push(item).drop_last() =~= items);
}

/// The items picked up during the current run; it has no size limit.
#[derive(Debug)]
pub struct RunInventory {
    items: Vec<InventoryItem>,
}

impl View for RunInventory {
    type V = Seq<InventoryItem>;

    closed spec fn view(&self) -> Seq<InventoryItem> {
        self.items@
    }
}

impl Default for RunInventory {
    fn default() -> (r: RunInventory)
        ensures
            r@ == Seq::<InventoryItem>::empty(),
    {
        RunInventory { items: Vec::new() }
    }
}

impl Clone for RunInventory {
    fn clone(&self) -> (r: RunInventory)
        ensures
            same_items(r@, self@),
    {
        RunInventory { items: copy_items(&self.items) }
    }
}

impl RunInventory {
    /// Adds a fresh item with the given id and rarity at the end.
    pub fn add_item(&mut self, item_id: &str, rarity: ItemRarity)
        ensures
            final(self)@.len() == old(self)@.len() + 1,
            final(self)@.drop_last() == old(self)@,
            final(self)@.last().item_id@ == item_id@,
            final(self)@.last().rarity == rarity,
            final(self)@.last().quality == 0,
            final(self)@.last().affixes@ == Seq::<CraftingAffix>::empty(),
    {
        self.items.push(InventoryItem::new(item_id, rarity));
        assert(self@.drop_last() =~= old(self)@);
    }

    /// Adds `item` at the end.
    pub fn push(&mut self, item: InventoryItem)
        ensures
            final(self)@ == old(self)@.push(item),
    {
        self.items.push(item);
    }

    /// Removes and returns the item at `index`, or returns `None` when there is none.
    pub fn take(&mut self, index: usize) -> (r: Option<InventoryItem>)
        ensures
            index < old(self)@.len() ==> r == Some(old(self)@[index as int]) && final(self)@
                == old(self)@.remove(index as int),
            index >= old(self)@.len() ==> r is None && final(self)@ == old(self)@,
    {
        if index < self.items.len() {
            Some(self.items.remove(index))
        } else {
            None
        }
    }

    /// Removes every item.
    pub fn clear(&mut self)
        ensures
            final(self)@ == Seq::<InventoryItem>::empty(),
    {
        self.items.clear();
    }

    pub fn items(&self) -> (r: &[InventoryItem])
        ensures
            r@ == self@,
    {
        self.items.as_slice()
    }

    /// The item at `index` for in-place change, or `None` when there is none.
    pub fn item_mut(&mut self, index: usize) -> (r: Option<&mut InventoryItem>)
        ensures
            index < old(self)@.len() ==> r is Some && *r.unwrap() == old(self)@[index as int]
                && final(self)@ == old(self)@.update(index as int, *final(r.unwrap())),
            index >= old(self)@.len() ==> r is None && final(self)@ == old(self)@,
    {
        if index < self.items.len() {
            Some(&mut self.items[index])
        } else {
            None
        }
    }

    /// How many items the run has collected, by rarity, as text.
    pub fn summary(&self) -> (r: String)
        ensures
            r@ == summary_text(self@),
    {
        let mut totals: [usize; 6] = [0; 6];
        let mut i: usize = 0;
        while i < self.items.len()
            invariant
                i <= self@.len(),
                self@ == self.items@,
                forall|k: int|
                    0 <= k < 6 ==> #[trigger] totals@[k] == rarity_count(
                        self@.take(i as int),
                        ItemRarity::at_rank(k as nat),
                    ),
            decreases self@.len() - i,
        {
            let k = self.items[i].rarity.index();
            proof {
                assert(self@.take(i + 1).drop_last() =~= self@.take(i as int));
                lemma_rarity_count_bound(self@.take(i as int), ItemRarity::at_rank(k as nat));
            }
            totals[k] = totals[k] + 1;
            i += 1;
        }
        assert(self@.take(i as int) =~= self@);
        let mut out = String::new();
        append_text(&mut out, "Loot ");
        append_decimal(&mut out, self.items.len() as u128);
        append_text(&mut out, " | ");
        let ghost head = out@;
        let mut k: usize = 0;
        while k < 6
            invariant
                k <= 6,
                out@ == head + rarity_breakdown(self@, k as nat),
                forall|j: int|
                    0 <= j < 6 ==> #[trigger] totals@[j] == rarity_count(
                        self@,
                        ItemRarity::at_rank(j as nat),
                    ),
            decreases 6 - k,
        {
            let rarity = ItemRarity::from_index(k);
            if k > 0 {
                append_text(&mut out, "  ");
            }
            append_text(&mut out, rarity.label());
            append_text(&mut out, " ");
            append_decimal(&mut out, totals[k] as u128);
            proof {
                assert(totals@[k as int] == rarity_count(self@, rarity));
            }
            k += 1;
            proof {
                if k == 1 {
                    assert(out@ =~= head + rarity_breakdown(self@, k as nat));
                } else {
                    assert(out@ =~= head + rarity_breakdown(self@, k as nat));
                }
            }
        }
        out
    }
}

/// The items kept between runs; it holds at most twenty.
#[derive(Debug)]
pub struct SafeInventory {
    items: Vec<InventoryItem>,
}

impl View for SafeInventory {
    type V = Seq<InventoryItem>;

    closed spec fn view(&self) -> Seq<InventoryItem> {
        self.items@
    }
}

impl SafeInventory {
    #[verifier::type_invariant]
    spec fn within_capacity(self) -> bool {
        self.items@.len() <= SAFE_INVENTORY_CAPACITY
    }

    /// Adds `item` at the end unless the inventory is full, in which case the
    /// item comes back in the error.
    pub fn try_push(&mut self, item: InventoryItem) -> (r: Result<(), InventoryItem>)
        ensures
            old(self)@.len() <= SAFE_INVENTORY_CAPACITY,
            final(self)@.len() <= SAFE_INVENTORY_CAPACITY,
            r is Err <==> old(self)@.len() == SAFE_INVENTORY_CAPACITY,
            r is Ok ==> final(self)@ == old(self)@.push(item),
            r matches Err(back) ==> back == item && final(self)@ == old(self)@,
    {
        proof {
            use_type_invariant(&*self);
        }
        if self.is_full() {
            Err(item)
        } else {
            let mut items: Vec<InventoryItem> = Vec::new();
            core::mem::swap(&mut items, &mut self.items);
            items.push(item);
            self.items = items;
            Ok(())
        }
    }

    /// Removes and returns the item at `index`, or returns `None` when there is none.
    pub fn take(&mut self, index: usize) -> (r: Option<InventoryItem>)
        ensures
            old(self)@.len() <= SAFE_INVENTORY_CAPACITY,
            index < old(self)@.len() ==> r == Some(old(self)@[index as int]) && final(self)@
                == old(self)@.remove(index as int),
            index >= old(self)@.len() ==> r is None && final(self)@ == old(self)@,
    {
        proof {
            use_type_invariant(&*self);
        }
        if index < self.items.len() {
            let mut items: Vec<InventoryItem> = Vec::new();
            core::mem::swap(&mut items, &mut self.items);
            let item = items.remove(index);
            self.items = items;
            Some(item)
        } else {
            None
        }
    }

    pub fn items(&self) -> (r: &[InventoryItem])
        ensures
            r@ == self@,
            r@.len() <= SAFE_INVENTORY_CAPACITY,
    {
        proof {
            use_type_invariant(self);
        }
        self.items.as_slice()
    }

    /// The item at `index` for in-place change, or `None` when there is none.
    pub fn item_mut(&mut self, index: usize) -> (r: Option<&mut InventoryItem>)
        ensures
            index < old(self)@.len() ==> r is Some && *r.unwrap() == old(self)@[index as int]
                && final(self)@ == old(self)@.update(index as int, *final(r.unwrap())),
            index >= old(self)@.len() ==> r is None && final(self)@ == old(self)@,
    {
        proof {
            use_type_invariant(&*self);
        }
        if index < self.items.len() {
            Some(&mut self.items[index])
        } else {
            None
        }
    }

    pub fn is_full(&self) -> (r: bool)
        ensures
            r == (self@.len() >= SAFE_INVENTORY_CAPACITY),
            self@.len() <= SAFE_INVENTORY_CAPACITY,
    {
        proof {
            use_type_invariant(self);
        }
        self.items.len() >= SAFE_INVENTORY_CAPACITY
    }
}

impl Clone for SafeInventory {
    fn clone(&self) -> (r: SafeInventory)
        ensures
            same_items(r@, self@),
    {
        proof {
            use_type_invariant(self);
        }
        SafeInventory { items: copy_items(&self.items) }
    }
}

impl Default for SafeInventory {
    fn default() -> (r: SafeInventory)
        ensures
            r@ == Seq::<InventoryItem>::empty(),
    {
        SafeInventory { items: Vec::new() }
    }
}

/// Moves the run item at `index` to the end of the safe inventory; nothing
/// moves when the safe inventory is full or there is no such item.
pub fn move_run_item_to_safe(
    run_inventory: &mut RunInventory,
    safe_inventory: &mut SafeInventory,
    index: usize,
) -> (r: bool)
    ensures
        r == (old(safe_inventory)@.len() < SAFE_INVENTORY_CAPACITY && index < old(run_inventory)@.len()),
        r ==> final(run_inventory)@ == old(run_inventory)@.remove(index as int) && final(safe_inventory)@ == old(safe_inventory)@.push(old(run_inventory)@[index as int]),
        !r ==> final(run_inventory)@ == old(run_inventory)@ && final(safe_inventory)@ == old(safe_inventory)@,
        final(run_inventory)@.to_multiset().add(final(safe_inventory)@.to_multiset()) == old(run_inventory)@.to_multiset().add(old(safe_inventory)@.to_multiset()),
{
    if safe_inventory.is_full() {
        return false;
    }
    let item = match run_inventory.take(index) {
        Some(item) => item,
        None => return false,
    };
    match safe_inventory.try_push(item) {
        Err(item) => {
            proof {
                assert(false);
            }
            run_inventory.push(item);
            false
        },
        Ok(()) => {
            proof {
                let moved = old(run_inventory)@[index as int];
                assert(final(run_inventory)@.to_multiset().add(final(safe_inventory)@.to_multiset())
                    =~= old(run_inventory)@.to_multiset().add(
                    old(safe_inventory)@.to_multiset(),
                ));
            }
            true
        },
    }
}

/// Moves the safe item at `index` to the end of the run inventory; nothing
/// moves when there is no such item.
pub fn move_safe_item_to_run(
    run_inventory: &mut RunInventory,
    safe_inventory: &mut SafeInventory,
    index: usize,
) -> (r: bool)
    ensures
        r == (index < old(safe_inventory)@.len()),
        r ==> final(safe_inventory)@ == old(safe_inventory)@.remove(index as int) && final(run_inventory)@ == old(run_inventory)@.push(old(safe_inventory)@[index as int]),
        !r ==> final(run_inventory)@ == old(run_inventory)@ && final(safe_inventory)@ == old(safe_inventory)@,
        final(run_inventory)@.to_multiset().add(final(safe_inventory)@.to_multiset()) == old(run_inventory)@.to_multiset().add(old(safe_inventory)@.to_multiset()),
{
    let item = match safe_inventory.take(index) {
        Some(item) => item,
        None => return false,
    };
    run_inventory.push(item);
    proof {
        assert(final(run_inventory)@.to_multiset().add(final(safe_inventory)@.to_multiset())
            =~= old(run_inventory)@.to_multiset().add(old(safe_inventory)@.to_multiset()));
    }
    true
}

/// Sending a run item to the safe inventory and then the safe inventory's last
/// item back leaves the safe inventory as it was and puts the item at the end
/// of the run inventory.
pub proof fn lemma_safe_round_trip(run: Seq<InventoryItem>, safe: Seq<InventoryItem>, index: int)
    requires
        0 <= index < run.len(),
    ensures
        ({
            let run_after = run.remove(index);
            let safe_after = safe.push(run[index]);
            let last = safe_after.len() - 1;
            &&& safe_after.remove(last) == safe
            &&& run_after.push(safe_after[last]) == run.remove(index).push(run[index])
            &&& run_after.push(safe_after[last]).to_multiset() == run.to_multiset()
        }),
{
    let safe_after = safe.push(run[index]);
    assert(safe_after.remove(safe_after.len() - 1) =~= safe);
    assert(run.remove(index).push(run[index]).to_multiset() =~= run.to_multiset());
}

} // verus!
