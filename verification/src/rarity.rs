//! Rarity tiers of loot.

use vstd::prelude::*;

verus! {

/// How rare a dropped item is; rarer items hold more affixes.
#[derive(Debug, Clone, Copy, PartialEq, Eq, Hash, Structural)]
pub enum ItemRarity {
    Common,
    Uncommon,
    Rare,
    Epic,
    Legendary,
    Mythic,
}

impl ItemRarity {
    /// Every rarity, from the most common to the rarest.
    pub const ALL: [ItemRarity; 6] = [
        ItemRarity::Common,
        ItemRarity::Uncommon,
        ItemRarity::Rare,
        ItemRarity::Epic,
        ItemRarity::Legendary,
        ItemRarity::Mythic,
    ];

    /// Position of the rarity in the order from common to mythic.
    pub open spec fn rank(self) -> nat {
        match self {
            ItemRarity::Common => 0,
            ItemRarity::Uncommon => 1,
            ItemRarity::Rare => 2,
            ItemRarity::Epic => 3,
            ItemRarity::Legendary => 4,
            ItemRarity::Mythic => 5,
        }
    }

    /// The rarity at a given rank.
    pub open spec fn at_rank(rank: nat) -> ItemRarity {
        if rank == 0 {
            ItemRarity::Common
        } else if rank == 1 {
            ItemRarity::Uncommon
        } else if rank == 2 {
            ItemRarity::Rare
        } else if rank == 3 {
            ItemRarity::Epic
        } else if rank == 4 {
            ItemRarity::Legendary
        } else {
            ItemRarity::Mythic
        }
    }

    /// The displayed name of the rarity.
    pub open spec fn label_text(self) -> Seq<char> {
        match self {
            ItemRarity::Common => "Common"@,
            ItemRarity::Uncommon => "Uncommon"@,
            ItemRarity::Rare => "Rare"@,
            ItemRarity::Epic => "Epic"@,
            ItemRarity::Legendary => "Legendary"@,
            ItemRarity::Mythic => "Mythic"@,
        }
    }

    pub fn index(self) -> (r: usize)
        ensures
            r == self.rank(),
    {
        match self {
            ItemRarity::Common => 0,
            ItemRarity::Uncommon => 1,
            ItemRarity::Rare => 2,
            ItemRarity::Epic => 3,
            ItemRarity::Legendary => 4,
            ItemRarity::Mythic => 5,
        }
    }

    pub fn from_index(index: usize) -> (r: ItemRarity)
        requires
            index < 6,
        ensures
            r == ItemRarity::at_rank(index as nat),
            r.rank() == index,
    {
        if index == 0 {
            ItemRarity::Common
        } else if index == 1 {
            ItemRarity::Uncommon
        } else if index == 2 {
            ItemRarity::Rare
        } else if index == 3 {
            ItemRarity::Epic
        } else if index == 4 {
            ItemRarity::Legendary
        } else {
            ItemRarity::Mythic
        }
    }

    pub fn label(self) -> (r: &'static str)
        ensures
            r@ == self.label_text(),
    {
        match self {
            ItemRarity::Common => "Common",
            ItemRarity::Uncommon => "Uncommon",
            ItemRarity::Rare => "Rare",
            ItemRarity::Epic => "Epic",
            ItemRarity::Legendary => "Legendary",
            ItemRarity::Mythic => "Mythic",
        }
    }
}

} // verus!
