//! Inventory items: definitions, stacks, and container slots.
//!
//! Fractional quantities of the game data (lantern strength, armor
//! protection, tool stats, buff strengths) are held as fixed-point integers:
//! a `*_thousandths` field counts thousandths of the nominal value, and the
//! display helpers work in tenths of the displayed value.

use vstd::prelude::*;
use crate::text::{replace_seq, replace_str};

verus! {

/// A throwable item's behaviour.
#[derive(Clone, Copy, Debug, PartialEq, Eq, Structural)]
pub enum Throwable {
    Bomb,
    TrainingDummy,
    Firework(Reagent),
}

/// Firework colouring agent.
#[derive(Clone, Copy, Debug, PartialEq, Eq, Structural)]
pub enum Reagent {
    Blue,
    Green,
    Purple,
    Red,
    Yellow,
}

/// A utility item's behaviour.
#[derive(Clone, Copy, Debug, PartialEq, Eq, Structural)]
pub enum Utility {
    Collar,
}

/// An RGB colour with 8-bit channels held widened.
#[derive(Clone, Copy, Debug, PartialEq, Eq, Structural)]
pub struct Rgb {
    pub r: u32,
    pub g: u32,
    pub b: u32,
}

/// A lantern's tuning. `strength` and `flicker` are fixed-point
/// thousandths of the nominal value.
#[derive(Clone, Debug)]
pub struct Lantern {
    pub kind: String,
    pub color: Rgb,
    pub strength_thousandths: u32,
    pub flicker_thousandths: u32,
}

impl Lantern {
    /// Light strength, in thousandths of the nominal value.
    pub fn strength(&self) -> (r: u32)
        ensures
            r == self.strength_thousandths,
    {
        self.strength_thousandths
    }

    /// Light colour.
    pub fn color(&self) -> (r: Rgb)
        ensures
            r == self.color,
    {
        self.color
    }
}

/// A glider's look.
#[derive(Clone, Debug)]
pub struct Glider {
    pub kind: String,
}

/// Item rarity tier.
#[derive(Clone, Copy, Debug, PartialEq, Eq, Structural)]
pub enum Quality {
    Low,
    Common,
    Moderate,
    High,
    Epic,
    Legendary,
    Artifact,
    Debug,
}

/// Which hand grip a tool takes.
#[derive(Clone, Copy, Debug, PartialEq, Eq, Structural)]
pub enum Hands {
    One,
    Two,
}

/// The family of a wieldable tool.
#[derive(Clone, Copy, Debug, PartialEq, Eq, Structural)]
pub enum ToolKind {
    Sword,
    Axe,
    Hammer,
    Bow,
    Dagger,
    Staff,
    Sceptre,
    Shield,
    Spear,
    HammerSimple,
    SwordSimple,
    StaffSimple,
    AxeSimple,
    BowSimple,
    Unique,
    Debug,
    Farming,
    Pick,
    Empty,
}

/// A tool's combat stats, each in fixed-point thousandths of the nominal
/// value.
#[derive(Clone, Copy, Debug, PartialEq, Eq, Structural)]
pub struct Stats {
    pub power_thousandths: u32,
    pub poise_strength_thousandths: u32,
    pub speed_thousandths: u32,
    pub crit_chance_thousandths: u32,
    pub crit_mult_thousandths: u32,
}

/// A wieldable tool.
#[derive(Clone, Copy, Debug, PartialEq, Eq, Structural)]
pub struct Tool {
    pub kind: ToolKind,
    pub hands: Hands,
    pub stats: Stats,
}

/// The slot a piece of armor is worn in.
#[derive(Clone, Copy, Debug, PartialEq, Eq, Structural)]
pub enum ArmorKind {
    Shoulder,
    Chest,
    Belt,
    Hand,
    Pants,
    Foot,
    Back,
    Ring,
    Neck,
    Head,
    Tabard,
    Bag,
}

/// How much damage a piece of armor absorbs, in fixed-point tenths, or
/// complete invulnerability.
#[derive(Clone, Copy, Debug, PartialEq, Eq, Structural)]
pub enum Protection {
    Normal(u32),
    Invincible,
}

/// A piece of armor.
#[derive(Clone, Copy, Debug, PartialEq, Eq, Structural)]
pub struct Armor {
    pub kind: ArmorKind,
    pub protection: Protection,
}

/// A buff's family.
#[derive(Clone, Copy, Debug, PartialEq, Eq, Structural)]
pub enum BuffKind {
    Saturation,
    Regeneration,
    Potion,
    IncreaseMaxEnergy,
    IncreaseMaxHealth,
    Invulnerability,
    Bleeding,
    CampfireHeal,
    Cursed,
    ProtectingWard,
}

/// A buff's tuning: strength in fixed-point tenths of the displayed total,
/// and an optional duration in whole seconds.
#[derive(Clone, Copy, Debug, PartialEq, Eq, Structural)]
pub struct BuffData {
    pub strength_tenths: u32,
    pub duration_secs: Option<u64>,
}

/// A buff applied by an effect.
#[derive(Clone, Copy, Debug, PartialEq, Eq, Structural)]
pub struct BuffEffect {
    pub kind: BuffKind,
    pub data: BuffData,
}

/// What dealt a damage or poise change.
#[derive(Clone, Copy, Debug, PartialEq, Eq, Structural)]
pub enum DamageSource {
    Explosion,
    Projectile,
    Melee,
}

/// What caused a poise change.
#[derive(Clone, Copy, Debug, PartialEq, Eq, Structural)]
pub enum PoiseSource {
    Explosion,
    Attack,
}

/// Direct damage, in whole points.
#[derive(Clone, Copy, Debug, PartialEq, Eq, Structural)]
pub struct Damage {
    pub source: DamageSource,
    pub value: u32,
}

/// A poise (stagger) change, in whole points.
#[derive(Clone, Copy, Debug, PartialEq, Eq, Structural)]
pub struct PoiseChange {
    pub amount: i32,
    pub source: PoiseSource,
}

/// One effect a consumable or explosion applies.
#[derive(Clone, Copy, Debug, PartialEq, Eq, Structural)]
pub enum Effect {
    Buff(BuffEffect),
    Damage(Damage),
    Poise(PoiseChange),
}

/// What an item is.
#[derive(Clone, Debug)]
pub enum ItemKind {
    Tool(Tool),
    Lantern(Lantern),
    Armor(Armor),
    Glider(Glider),
    Consumable { kind: String, effect: Vec<Effect> },
    Throwable { kind: Throwable },
    Utility { kind: Utility },
    Ingredient { kind: String },
}

impl ItemKind {
    /// True for the kinds that can be equipped.
    pub fn is_equippable(&self) -> (r: bool)
        ensures
            r == (self is Tool || self is Armor || self is Glider || self is Lantern),
    {
        match self {
            ItemKind::Tool(_) | ItemKind::Armor { .. } | ItemKind::Glider(_)
            | ItemKind::Lantern(_) => true,
            _ => false,
        }
    }
}

/// One ability a wielded item grants. Durations are in milliseconds;
/// fractional quantities are fixed-point thousandths.
#[derive(Clone, Copy, Debug, PartialEq, Eq, Structural)]
pub enum CharacterAbility {
    BasicMelee {
        energy_cost: u32,
        buildup_duration: u32,
        swing_duration: u32,
        recover_duration: u32,
        base_damage: u32,
        knockback_thousandths: u32,
        range_thousandths: u32,
        max_angle_thousandths: u32,
    },
    Roll,
    BasicBlock,
}

/// The ability loadout an item grants while equipped.
#[derive(Clone, Copy, Debug, PartialEq, Eq, Structural)]
pub struct ItemConfig {
    pub ability1: Option<CharacterAbility>,
    pub ability2: Option<CharacterAbility>,
    pub ability3: Option<CharacterAbility>,
    pub block_ability: Option<CharacterAbility>,
    pub dodge_ability: Option<CharacterAbility>,
}

/// Failure of a stack-size operation.
#[derive(Debug)]
pub struct OperationFailure;

/// An item definition: the immutable description every instance shares.
#[derive(Clone, Debug)]
pub struct ItemDef {
    pub item_definition_id: String,
    pub item_config: Option<ItemConfig>,
    pub name: String,
    pub description: String,
    pub kind: ItemKind,
    pub quality: Quality,
    pub slots: u16,
}

impl ItemDef {
    /// The definition id under which an asset specifier is filed: some
    /// commands hand specifiers in with backslashes where the dots belong.
    pub fn definition_id_from_specifier(specifier: &str) -> (r: String)
        ensures
            r@ == replace_seq(specifier@, "\\"@, "."@),
    {
        proof {
            reveal_strlit("\\");
        }
        replace_str(specifier, "\\", ".")
    }

    /// True for the kinds that may stack beyond one.
    pub fn is_stackable(&self) -> (r: bool)
        ensures
            r == (self.kind is Consumable || self.kind is Ingredient
                || self.kind is Throwable || self.kind is Utility),
    {
        match &self.kind {
            ItemKind::Consumable { .. } | ItemKind::Ingredient { .. }
            | ItemKind::Throwable { .. } | ItemKind::Utility { .. } => true,
            _ => false,
        }
    }
}

impl PartialEq for ItemDef {
    /// Definitions are compared by their definition id alone.
    fn eq(&self, other: &Self) -> (r: bool) {
        self.item_definition_id == other.item_definition_id
    }
}

impl vstd::std_specs::cmp::PartialEqSpecImpl for ItemDef {
    open spec fn obeys_eq_spec() -> bool {
        true
    }

    open spec fn eq_spec(&self, other: &Self) -> bool {
        self.item_definition_id@ == other.item_definition_id@
    }
}

/// One slot of a container: empty, or holding an item.
pub type InvSlot = Option<Item>;

/// An item instance: a definition plus a stack size, a persistence id, and
/// its own container slots.
#[derive(Debug)]
pub struct Item {
    /// Persistent database id; `None` until first saved. Always nonzero.
    pub item_id: Option<u64>,
    pub item_def: ItemDef,
    /// Stack size; at least 1, and more than 1 only for stackable kinds.
    pub amount: u32,
    pub slots: Vec<InvSlot>,
}

impl Item {
    /// Validity of one instance: the stack is nonempty and the persistence
    /// id, when present, is nonzero.
    pub open spec fn wf(self) -> bool {
        &&& self.amount >= 1
        &&& match self.item_id {
            Some(id) => id > 0,
            None => true,
        }
    }

    /// A fresh unsaved instance of a definition: one of it, empty slots.
    pub fn new_from_item_def(inner_item: ItemDef) -> (r: Item)
        ensures
            r.wf(),
            r.item_id is None,
            r.amount == 1,
            r.slots@.len() == inner_item.slots,
            forall|i: int| 0 <= i < r.slots@.len() ==> (#[trigger] r.slots@[i]) is None,
            r.item_def == inner_item,
    {
        let n = inner_item.slots;
        let mut slots: Vec<InvSlot> = Vec::new();
        let mut i: u16 = 0;
        while i < n
            invariant
                i <= n,
                slots@.len() == i,
                forall|j: int| 0 <= j < slots@.len() ==> (#[trigger] slots@[j]) is None,
            decreases n - i,
        {
            slots.push(None);
            i = i + 1;
        }
        Item { item_id: None, item_def: inner_item, amount: 1, slots }
    }

    /// An exact copy with a new (unsaved) identity.
    pub fn duplicate(&self) -> (r: Item)
        ensures
            r.wf(),
            r.item_id is None,
            r.amount == 1,
            r.slots@.len() == self.item_def.slots,
            r.item_def.item_definition_id@ == self.item_def.item_definition_id@,
            r.item_def.name@ == self.item_def.name@,
            r.item_def.description@ == self.item_def.description@,
            r.item_def.quality == self.item_def.quality,
            r.item_def.slots == self.item_def.slots,
            r.item_def.item_config == self.item_def.item_config,
    {
        let def = ItemDef {
            item_definition_id: self.item_def.item_definition_id.clone(),
            item_config: self.item_def.item_config,
            name: self.item_def.name.clone(),
            description: self.item_def.description.clone(),
            kind: self.item_def.kind.clone(),
            quality: self.item_def.quality,
            slots: self.item_def.slots,
        };
        Item::new_from_item_def(def)
    }

    /// Forgets the persistent identity, as when the item is dropped into the
    /// world: the next save creates a new record.
    pub fn put_in_world(&mut self)
        requires
            old(self).wf(),
        ensures
            final(self).wf(),
            final(self).item_id is None,
            final(self).item_def == old(self).item_def,
            final(self).amount == old(self).amount,
            final(self).slots@ == old(self).slots@,
    {
        self.item_id = None;
    }

    /// Grows the stack; fails exactly when the sum leaves `u32`.
    pub fn increase_amount(&mut self, increase_by: u32) -> (r: Result<(), OperationFailure>)
        requires
            old(self).wf(),
        ensures
            final(self).wf(),
            final(self).item_def == old(self).item_def,
            final(self).item_id == old(self).item_id,
            final(self).slots@ == old(self).slots@,
            old(self).amount + increase_by <= u32::MAX ==> r is Ok
                && final(self).amount == old(self).amount + increase_by,
            old(self).amount + increase_by > u32::MAX ==> r is Err
                && final(self).amount == old(self).amount,
    {
        match self.amount.checked_add(increase_by) {
            Some(new_amount) => {
                self.amount = new_amount;
                Ok(())
            },
            None => Err(OperationFailure),
        }
    }

    /// Shrinks the stack; fails exactly when fewer than one would remain.
    pub fn decrease_amount(&mut self, decrease_by: u32) -> (r: Result<(), OperationFailure>)
        requires
            old(self).wf(),
        ensures
            final(self).wf(),
            final(self).item_def == old(self).item_def,
            final(self).item_id == old(self).item_id,
            final(self).slots@ == old(self).slots@,
            decrease_by < old(self).amount ==> r is Ok
                && final(self).amount == old(self).amount - decrease_by,
            decrease_by >= old(self).amount ==> r is Err
                && final(self).amount == old(self).amount,
    {
        if decrease_by < self.amount {
            self.amount = self.amount - decrease_by;
            Ok(())
        } else {
            Err(OperationFailure)
        }
    }

    /// Sets the stack size; fails exactly when the size is zero or the kind
    /// cannot stack and the size is not one.
    pub fn set_amount(&mut self, give_amount: u32) -> (r: Result<(), OperationFailure>)
        requires
            old(self).wf(),
        ensures
            final(self).wf(),
            final(self).item_def == old(self).item_def,
            final(self).item_id == old(self).item_id,
            final(self).slots@ == old(self).slots@,
            (give_amount >= 1 && (give_amount == 1
                || old(self).item_def.kind is Consumable
                || old(self).item_def.kind is Ingredient
                || old(self).item_def.kind is Throwable
                || old(self).item_def.kind is Utility)) ==> r is Ok
                    && final(self).amount == give_amount,
            !(give_amount >= 1 && (give_amount == 1
                || old(self).item_def.kind is Consumable
                || old(self).item_def.kind is Ingredient
                || old(self).item_def.kind is Throwable
                || old(self).item_def.kind is Utility)) ==> r is Err
                    && final(self).amount == old(self).amount,
    {
        if give_amount >= 1 && (give_amount == 1 || self.item_def.is_stackable()) {
            self.amount = give_amount;
            Ok(())
        } else {
            Err(OperationFailure)
        }
    }

    /// Takes every contained item out of the slots, in slot order, leaving
    /// all slots empty.
    pub fn drain(&mut self) -> (r: Vec<Item>)
        requires
            old(self).wf(),
        ensures
            final(self).wf(),
            final(self).item_def == old(self).item_def,
            final(self).item_id == old(self).item_id,
            final(self).amount == old(self).amount,
            final(self).slots@.len() == old(self).slots@.len(),
            forall|i: int| 0 <= i < final(self).slots@.len()
                ==> (#[trigger] final(self).slots@[i]) is None,
            r@ =~= taken_items(old(self).slots@),
    {
        let n = self.slots.len();
        let mut out: Vec<Item> = Vec::new();
        let mut i: usize = 0;
        proof {
            assert(old(self).slots@.skip(0) =~= old(self).slots@);
        }
        while i < n
            invariant
                i <= n,
                n == self.slots@.len(),
                self.slots@.len() == old(self).slots@.len(),
                self.wf(),
                self.item_def == old(self).item_def,
                self.item_id == old(self).item_id,
                self.amount == old(self).amount,
                forall|j: int| 0 <= j < i ==> (#[trigger] self.slots@[j]) is None,
                forall|j: int| i <= j < n ==> self.slots@[j] == old(self).slots@[j],
                out@ + taken_items(old(self).slots@.skip(i as int))
                    =~= taken_items(old(self).slots@),
            decreases n - i,
        {
            let ghost pre_slots = old(self).slots@.skip(i as int);
            let slot = self.slots.remove(i);
            self.slots.insert(i, None);
            proof {
                assert(pre_slots.drop_first() =~= old(self).slots@.skip(i + 1));
                assert(pre_slots[0] == old(self).slots@[i as int]);
            }
            match slot {
                Some(item) => {
                    out.push(item);
                },
                None => {},
            }
            i = i + 1;
        }
        proof {
            assert(taken_items(old(self).slots@.skip(n as int)) =~= Seq::<Item>::empty());
        }
        out
    }

    /// The definition id this instance was created from.
    pub fn item_definition_id(&self) -> (r: &str)
        ensures
            r@ == self.item_def.item_definition_id@,
    {
        self.item_def.item_definition_id.as_str()
    }

    /// True if this instance was created from the given definition.
    pub fn is_same_item_def(&self, item_def: &ItemDef) -> (r: bool)
        ensures
            r == (self.item_def.item_definition_id@ == item_def.item_definition_id@),
    {
        self.item_def.item_definition_id == item_def.item_definition_id
    }

    /// True for the kinds that may stack beyond one.
    pub fn is_stackable(&self) -> (r: bool)
        ensures
            r == (self.item_def.kind is Consumable || self.item_def.kind is Ingredient
                || self.item_def.kind is Throwable || self.item_def.kind is Utility),
    {
        self.item_def.is_stackable()
    }

    /// Display name.
    pub fn name(&self) -> (r: &str)
        ensures
            r@ == self.item_def.name@,
    {
        self.item_def.name.as_str()
    }

    /// Display description.
    pub fn description(&self) -> (r: &str)
        ensures
            r@ == self.item_def.description@,
    {
        self.item_def.description.as_str()
    }

    /// What the item is.
    pub fn kind(&self) -> (r: &ItemKind)
        ensures
            r == self.item_def.kind,
    {
        &self.item_def.kind
    }

    /// Stack size.
    pub fn amount(&self) -> (r: u32)
        ensures
            r == self.amount,
    {
        self.amount
    }

    /// Rarity tier.
    pub fn quality(&self) -> (r: Quality)
        ensures
            r == self.item_def.quality,
    {
        self.item_def.quality
    }

    /// The container slots.
    pub fn slots(&self) -> (r: &Vec<InvSlot>)
        ensures
            r@ == self.slots@,
    {
        &self.slots
    }

    /// How many slots are empty.
    pub fn free_slots(&self) -> (r: usize)
        ensures
            r == free_count(self.slots@),
    {
        let n = self.slots.len();
        proof {
            lemma_free_count_le_len(self.slots@);
        }
        let mut count: usize = 0;
        let mut i: usize = 0;
        proof {
            assert(self.slots@.skip(0) =~= self.slots@);
        }
        while i < n
            invariant
                i <= n,
                n == self.slots@.len(),
                count <= i,
                count + free_count(self.slots@.skip(i as int)) == free_count(self.slots@),
            decreases n - i,
        {
            proof {
                assert(self.slots@.skip(i as int).drop_first() =~= self.slots@.skip(i + 1));
                assert(self.slots@.skip(i as int)[0] == self.slots@[i as int]);
            }
            if self.slots[i].is_none() {
                count = count + 1;
            }
            i = i + 1;
        }
        proof {
            assert(self.slots@.skip(n as int) =~= Seq::<InvSlot>::empty());
        }
        count
    }

    /// How many slots hold an item.
    pub fn populated_slots(&self) -> (r: usize)
        ensures
            r == self.slots@.len() - free_count(self.slots@),
    {
        proof {
            lemma_free_count_le_len(self.slots@);
        }
        self.slots.len() - self.free_slots()
    }

    /// The slot at `slot`, if the index is in range.
    pub fn slot(&self, slot: usize) -> (r: Option<&InvSlot>)
        ensures
            slot < self.slots@.len() ==> r == Some(&self.slots@[slot as int]),
            slot >= self.slots@.len() ==> r is None,
    {
        if slot < self.slots.len() {
            Some(&self.slots[slot])
        } else {
            None
        }
    }

    /// The ability loadout of an equipped item. Only items built to be
    /// wielded carry one: the caller must know the item has it.
    pub fn item_config_expect(&self) -> (r: &ItemConfig)
        requires
            self.item_def.item_config is Some,
        ensures
            Some(*r) == self.item_def.item_config,
    {
        match &self.item_def.item_config {
            Some(config) => config,
            None => vstd::pervasive::unreached(),
        }
    }

    /// The persistence id the database assigned, if the item was saved.
    pub fn get_item_id_for_database(&self) -> (r: Option<u64>)
        ensures
            r == self.item_id,
    {
        self.item_id
    }

    /// Mutable access to the container slots.
    pub fn slots_mut(&mut self) -> (r: &mut Vec<InvSlot>)
        ensures
            *r == old(self).slots,
            final(self).slots == *final(r),
            final(self).item_def == old(self).item_def,
            final(self).item_id == old(self).item_id,
            final(self).amount == old(self).amount,
    {
        &mut self.slots
    }

    /// Mutable access to the slot at `slot`, if the index is in range.
    pub fn slot_mut(&mut self, slot: usize) -> (r: Option<&mut InvSlot>)
        ensures
            slot >= old(self).slots@.len() ==> r is None && *final(self) == *old(self),
            slot < old(self).slots@.len() ==> match r {
                Some(v) => *v == old(self).slots@[slot as int]
                    && final(self).slots@ == old(self).slots@.update(slot as int, *final(v))
                    && final(self).item_def == old(self).item_def
                    && final(self).item_id == old(self).item_id
                    && final(self).amount == old(self).amount,
                None => false,
            },
    {
        if slot < self.slots.len() {
            Some(&mut self.slots[slot])
        } else {
            None
        }
    }

    /// Number of slots of the definition.
    pub fn num_slots(&self) -> (r: u16)
        ensures
            r == self.item_def.slots,
    {
        self.item_def.slots
    }
}

impl PartialEq for Item {
    /// Instances are compared by their definition id alone.
    fn eq(&self, other: &Self) -> (r: bool) {
        self.item_def.item_definition_id == other.item_def.item_definition_id
    }
}

impl vstd::std_specs::cmp::PartialEqSpecImpl for Item {
    open spec fn obeys_eq_spec() -> bool {
        true
    }

    open spec fn eq_spec(&self, other: &Self) -> bool {
        self.item_def.item_definition_id@ == other.item_def.item_definition_id@
    }
}

/// The items held in the `Some` slots, in slot order.
pub open spec fn taken_items(s: Seq<InvSlot>) -> Seq<Item>
    decreases s.len(),
{
    if s.len() == 0 {
        Seq::<Item>::empty()
    } else {
        let rest = taken_items(s.drop_first());
        match s[0] {
            Some(item) => seq![item] + rest,
            None => rest,
        }
    }
}

/// How many of the slots are empty.
pub open spec fn free_count(s: Seq<InvSlot>) -> nat
    decreases s.len(),
{
    if s.len() == 0 {
        0nat
    } else {
        (if s[0] is None { 1nat } else { 0nat }) + free_count(s.drop_first())
    }
}

/// No more slots are empty than there are slots.
pub proof fn lemma_free_count_le_len(s: Seq<InvSlot>)
    ensures
        free_count(s) <= s.len(),
    decreases s.len(),
{
    if s.len() > 0 {
        lemma_free_count_le_len(s.drop_first());
    }
}

/// An item lying in the world as a pickup.
#[derive(Debug)]
pub struct ItemDrop(pub Item);

/// Read access to the definition details, shared by an instance and the
/// definition itself.
pub trait ItemDesc {
    fn description(&self) -> &str;

    fn name(&self) -> &str;

    fn kind(&self) -> &ItemKind;

    fn quality(&self) -> &Quality;

    fn num_slots(&self) -> u16;

    fn item_definition_id(&self) -> &str;
}

impl ItemDesc for Item {
    fn description(&self) -> &str {
        self.item_def.description.as_str()
    }

    fn name(&self) -> &str {
        self.item_def.name.as_str()
    }

    fn kind(&self) -> &ItemKind {
        &self.item_def.kind
    }

    fn quality(&self) -> &Quality {
        &self.item_def.quality
    }

    fn num_slots(&self) -> u16 {
        self.item_def.slots
    }

    fn item_definition_id(&self) -> &str {
        self.item_def.item_definition_id.as_str()
    }
}

impl ItemDesc for ItemDef {
    fn description(&self) -> &str {
        self.description.as_str()
    }

    fn name(&self) -> &str {
        self.name.as_str()
    }

    fn kind(&self) -> &ItemKind {
        &self.kind
    }

    fn quality(&self) -> &Quality {
        &self.quality
    }

    fn num_slots(&self) -> u16 {
        self.slots
    }

    fn item_definition_id(&self) -> &str {
        self.item_definition_id.as_str()
    }
}

} // verus!
