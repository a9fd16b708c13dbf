//! Terrain blocks and what harvesting one yields: either a concrete item
//! definition id, or a loot table to sample (the caller loads the table and
//! draws from it). The table choice consumes one externally drawn random
//! roll, so the decision itself is a function of block and roll alone.

use vstd::prelude::*;

verus! {

/// The sprite standing on a terrain block.
#[derive(Clone, Copy, Debug, PartialEq, Eq, Structural)]
pub enum SpriteKind {
    Apple,
    Mushroom,
    CaveMushroom,
    Velorite,
    VeloriteFrag,
    BlueFlower,
    PinkFlower,
    PurpleFlower,
    RedFlower,
    WhiteFlower,
    YellowFlower,
    Sunflower,
    LongGrass,
    MediumGrass,
    ShortGrass,
    Coconut,
    Beehive,
    Stones,
    Twigs,
    ShinyGem,
    VialEmpty,
    Bowl,
    PotionMinor,
    Amethyst,
    Ruby,
    Diamond,
    Sapphire,
    Topaz,
    Emerald,
    AmethystSmall,
    TopazSmall,
    DiamondSmall,
    RubySmall,
    EmeraldSmall,
    SapphireSmall,
    Chest,
    ChestBurried,
    Mud,
    Crate,
    Empty,
    Window,
    Door,
}

/// A terrain block: at most one sprite stands on it.
#[derive(Clone, Copy, Debug, PartialEq, Eq, Structural)]
pub struct Block {
    pub sprite: Option<SpriteKind>,
}

impl Block {
    /// The sprite on this block, if any.
    pub fn get_sprite(&self) -> (r: Option<SpriteKind>)
        ensures
            r == self.sprite,
    {
        self.sprite
    }
}

/// What reclaiming a sprite yields.
#[derive(Clone, Debug)]
pub enum Reclaim {
    /// This item definition id, directly.
    Item(String),
    /// One draw from this loot table.
    LootTable(String),
}

/// True for the sprites that yield anything at all.
pub open spec fn sprite_reclaimable(sprite: SpriteKind) -> bool {
    !(sprite is Empty || sprite is Window || sprite is Door)
}

/// True for the container sprites whose yield is a loot-table draw.
pub open spec fn sprite_is_loot(sprite: SpriteKind) -> bool {
    sprite is Chest || sprite is ChestBurried || sprite is Mud || sprite is Crate
}

/// The loot table a container sprite yields for a given roll.
pub open spec fn loot_table_id(sprite: SpriteKind, roll: u64) -> Seq<char> {
    if sprite is Chest {
        if roll % 7 == 0 {
            "common.loot_tables.loot_table_weapon_uncommon"@
        } else if roll % 7 == 1 {
            "common.loot_tables.loot_table_weapon_common"@
        } else if roll % 7 == 2 {
            "common.loot_tables.loot_table_armor_light"@
        } else if roll % 7 == 3 {
            "common.loot_tables.loot_table_armor_cloth"@
        } else if roll % 7 == 4 {
            "common.loot_tables.loot_table_armor_heavy"@
        } else {
            "common.loot_tables.loot_table_armor_misc"@
        }
    } else if sprite is ChestBurried {
        if roll % 7 == 1 {
            "common.loot_tables.loot_table_weapon_common"@
        } else if roll % 7 == 2 {
            "common.loot_tables.loot_table_armor_light"@
        } else if roll % 7 == 3 {
            "common.loot_tables.loot_table_armor_cloth"@
        } else {
            "common.loot_tables.loot_table_armor_misc"@
        }
    } else if sprite is Mud {
        if roll % 5 == 0 {
            "common.loot_tables.loot_table_crafting"@
        } else if roll % 5 == 1 {
            "common.loot_tables.loot_table_weapon_common"@
        } else if roll % 5 == 2 {
            "common.loot_tables.loot_table_armor_misc"@
        } else {
            "common.loot_tables.loot_table_rocks"@
        }
    } else {
        if roll % 4 == 0 {
            "common.loot_tables.loot_table_crafting"@
        } else {
            "common.loot_tables.loot_table_food"@
        }
    }
}

/// The item definition id a plain sprite yields.
pub open spec fn sprite_item_id(sprite: SpriteKind) -> Seq<char> {
    match sprite {
        SpriteKind::Apple => "common.items.food.apple"@,
        SpriteKind::Mushroom => "common.items.food.mushroom"@,
        SpriteKind::CaveMushroom => "common.items.food.mushroom"@,
        SpriteKind::Velorite => "common.items.ore.velorite"@,
        SpriteKind::VeloriteFrag => "common.items.ore.veloritefrag"@,
        SpriteKind::BlueFlower => "common.items.flowers.blue"@,
        SpriteKind::PinkFlower => "common.items.flowers.pink"@,
        SpriteKind::PurpleFlower => "common.items.flowers.purple"@,
        SpriteKind::RedFlower => "common.items.flowers.red"@,
        SpriteKind::WhiteFlower => "common.items.flowers.white"@,
        SpriteKind::YellowFlower => "common.items.flowers.yellow"@,
        SpriteKind::Sunflower => "common.items.flowers.sunflower"@,
        SpriteKind::LongGrass => "common.items.grasses.long"@,
        SpriteKind::MediumGrass => "common.items.grasses.medium"@,
        SpriteKind::ShortGrass => "common.items.grasses.short"@,
        SpriteKind::Coconut => "common.items.food.coconut"@,
        SpriteKind::Beehive => "common.items.crafting_ing.honey"@,
        SpriteKind::Stones => "common.items.crafting_ing.stones"@,
        SpriteKind::Twigs => "common.items.crafting_ing.twigs"@,
        SpriteKind::ShinyGem => "common.items.crafting_ing.shiny_gem"@,
        SpriteKind::VialEmpty => "common.items.crafting_ing.empty_vial"@,
        SpriteKind::Bowl => "common.items.crafting_ing.bowl"@,
        SpriteKind::PotionMinor => "common.items.consumable.potion_minor"@,
        SpriteKind::Amethyst => "common.items.crafting_ing.amethyst"@,
        SpriteKind::Ruby => "common.items.crafting_ing.ruby"@,
        SpriteKind::Diamond => "common.items.crafting_ing.diamond"@,
        SpriteKind::Sapphire => "common.items.crafting_ing.sapphire"@,
        SpriteKind::Topaz => "common.items.crafting_ing.topaz"@,
        SpriteKind::Emerald => "common.items.crafting_ing.emerald"@,
        SpriteKind::AmethystSmall => "common.items.crafting_ing.amethyst"@,
        SpriteKind::TopazSmall => "common.items.crafting_ing.topaz"@,
        SpriteKind::DiamondSmall => "common.items.crafting_ing.diamond"@,
        SpriteKind::RubySmall => "common.items.crafting_ing.ruby"@,
        SpriteKind::EmeraldSmall => "common.items.crafting_ing.emerald"@,
        SpriteKind::SapphireSmall => "common.items.crafting_ing.sapphire"@,
        _ => Seq::<char>::empty(),
    }
}

/// What reclaiming `block` yields: nothing without a reclaimable sprite, a
/// loot-table draw for the container sprites (the roll picks the table), and
/// a concrete item otherwise.
pub fn try_reclaim_from_block(block: Block, roll: u64) -> (r: Option<Reclaim>)
    ensures
        match block.sprite {
            None => r is None,
            Some(sprite) => {
                &&& !sprite_reclaimable(sprite) ==> r is None
                &&& (sprite_reclaimable(sprite) && sprite_is_loot(sprite))
                    ==> (r matches Some(Reclaim::LootTable(t))
                        && t@ == loot_table_id(sprite, roll))
                &&& (sprite_reclaimable(sprite) && !sprite_is_loot(sprite))
                    ==> (r matches Some(Reclaim::Item(id)) && id@ == sprite_item_id(sprite))
            },
        },
{
    let sprite = match block.get_sprite() {
        Some(s) => s,
        None => {
            return None;
        },
    };
    match sprite {
        SpriteKind::Apple => Some(Reclaim::Item("common.items.food.apple".to_owned())),
        SpriteKind::Mushroom => Some(Reclaim::Item("common.items.food.mushroom".to_owned())),
        SpriteKind::CaveMushroom => Some(Reclaim::Item("common.items.food.mushroom".to_owned())),
        SpriteKind::Velorite => Some(Reclaim::Item("common.items.ore.velorite".to_owned())),
        SpriteKind::VeloriteFrag => Some(Reclaim::Item("common.items.ore.veloritefrag".to_owned())),
        SpriteKind::BlueFlower => Some(Reclaim::Item("common.items.flowers.blue".to_owned())),
        SpriteKind::PinkFlower => Some(Reclaim::Item("common.items.flowers.pink".to_owned())),
        SpriteKind::PurpleFlower => Some(Reclaim::Item("common.items.flowers.purple".to_owned())),
        SpriteKind::RedFlower => Some(Reclaim::Item("common.items.flowers.red".to_owned())),
        SpriteKind::WhiteFlower => Some(Reclaim::Item("common.items.flowers.white".to_owned())),
        SpriteKind::YellowFlower => Some(Reclaim::Item("common.items.flowers.yellow".to_owned())),
        SpriteKind::Sunflower => Some(Reclaim::Item("common.items.flowers.sunflower".to_owned())),
        SpriteKind::LongGrass => Some(Reclaim::Item("common.items.grasses.long".to_owned())),
        SpriteKind::MediumGrass => Some(Reclaim::Item("common.items.grasses.medium".to_owned())),
        SpriteKind::ShortGrass => Some(Reclaim::Item("common.items.grasses.short".to_owned())),
        SpriteKind::Coconut => Some(Reclaim::Item("common.items.food.coconut".to_owned())),
        SpriteKind::Beehive => Some(Reclaim::Item("common.items.crafting_ing.honey".to_owned())),
        SpriteKind::Stones => Some(Reclaim::Item("common.items.crafting_ing.stones".to_owned())),
        SpriteKind::Twigs => Some(Reclaim::Item("common.items.crafting_ing.twigs".to_owned())),
        SpriteKind::ShinyGem => Some(Reclaim::Item("common.items.crafting_ing.shiny_gem".to_owned())),
        SpriteKind::VialEmpty => Some(Reclaim::Item("common.items.crafting_ing.empty_vial".to_owned())),
        SpriteKind::Bowl => Some(Reclaim::Item("common.items.crafting_ing.bowl".to_owned())),
        SpriteKind::PotionMinor => Some(Reclaim::Item("common.items.consumable.potion_minor".to_owned())),
        SpriteKind::Amethyst => Some(Reclaim::Item("common.items.crafting_ing.amethyst".to_owned())),
        SpriteKind::Ruby => Some(Reclaim::Item("common.items.crafting_ing.ruby".to_owned())),
        SpriteKind::Diamond => Some(Reclaim::Item("common.items.crafting_ing.diamond".to_owned())),
        SpriteKind::Sapphire => Some(Reclaim::Item("common.items.crafting_ing.sapphire".to_owned())),
        SpriteKind::Topaz => Some(Reclaim::Item("common.items.crafting_ing.topaz".to_owned())),
        SpriteKind::Emerald => Some(Reclaim::Item("common.items.crafting_ing.emerald".to_owned())),
        SpriteKind::AmethystSmall => Some(Reclaim::Item("common.items.crafting_ing.amethyst".to_owned())),
        SpriteKind::TopazSmall => Some(Reclaim::Item("common.items.crafting_ing.topaz".to_owned())),
        SpriteKind::DiamondSmall => Some(Reclaim::Item("common.items.crafting_ing.diamond".to_owned())),
        SpriteKind::RubySmall => Some(Reclaim::Item("common.items.crafting_ing.ruby".to_owned())),
        SpriteKind::EmeraldSmall => Some(Reclaim::Item("common.items.crafting_ing.emerald".to_owned())),
        SpriteKind::SapphireSmall => Some(Reclaim::Item("common.items.crafting_ing.sapphire".to_owned())),
        SpriteKind::Chest => Some(Reclaim::LootTable(match roll % 7 {
            0 => "common.loot_tables.loot_table_weapon_uncommon".to_owned(),
            1 => "common.loot_tables.loot_table_weapon_common".to_owned(),
            2 => "common.loot_tables.loot_table_armor_light".to_owned(),
            3 => "common.loot_tables.loot_table_armor_cloth".to_owned(),
            4 => "common.loot_tables.loot_table_armor_heavy".to_owned(),
            _ => "common.loot_tables.loot_table_armor_misc".to_owned(),
        })),
        SpriteKind::ChestBurried => Some(Reclaim::LootTable(match roll % 7 {
            1 => "common.loot_tables.loot_table_weapon_common".to_owned(),
            2 => "common.loot_tables.loot_table_armor_light".to_owned(),
            3 => "common.loot_tables.loot_table_armor_cloth".to_owned(),
            _ => "common.loot_tables.loot_table_armor_misc".to_owned(),
        })),
        SpriteKind::Mud => Some(Reclaim::LootTable(match roll % 5 {
            0 => "common.loot_tables.loot_table_crafting".to_owned(),
            1 => "common.loot_tables.loot_table_weapon_common".to_owned(),
            2 => "common.loot_tables.loot_table_armor_misc".to_owned(),
            _ => "common.loot_tables.loot_table_rocks".to_owned(),
        })),
        SpriteKind::Crate => Some(Reclaim::LootTable(match roll % 4 {
            0 => "common.loot_tables.loot_table_crafting".to_owned(),
            _ => "common.loot_tables.loot_table_food".to_owned(),
        })),
        _ => None,
    }
}

} // verus!
