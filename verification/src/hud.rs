//! HUD text: turning items, tools, armor and consumable effects into the
//! strings the interface shows, through a keyed message catalog.

use vstd::prelude::*;
use crate::item::{Armor, ArmorKind, BuffData, BuffKind, Effect, Hands, ItemKind, Protection,
    Stats, Tool, ToolKind};
use crate::text::{dec_digits, dec_tenths, dec_tenths_fixed, replace_seq, replace_str,
    tenths_to_dec, tenths_to_dec_fixed, u64_to_dec};

verus! {

/// A message catalog: translation strings by key. A key that is not in the
/// catalog falls back to itself.
pub struct Localization {
    pub entries: Vec<(String, String)>,
}

/// The first value stored under `key`, or `key` itself if none is.
pub open spec fn lookup(entries: Seq<(String, String)>, key: Seq<char>) -> Seq<char>
    decreases entries.len(),
{
    if entries.len() == 0 {
        key
    } else if entries[0].0@ == key {
        entries[0].1@
    } else {
        lookup(entries.drop_first(), key)
    }
}

impl Localization {
    /// The translation of `key`, or `key` itself when missing.
    pub open spec fn get_spec(self, key: Seq<char>) -> Seq<char> {
        lookup(self.entries@, key)
    }

    /// An empty catalog: every key falls back to itself.
    pub fn new() -> (r: Localization)
        ensures
            r.entries@.len() == 0,
    {
        Localization { entries: Vec::new() }
    }

    /// Appends one translation; earlier entries win on duplicate keys.
    pub fn add(&mut self, key: String, value: String)
        ensures
            final(self).entries@ == old(self).entries@.push((key, value)),
    {
        self.entries.push((key, value));
    }

    /// The translation of `key`, or `key` itself when missing.
    pub fn get(&self, key: &str) -> (r: String)
        ensures
            r@ == self.get_spec(key@),
    {
        let k = key.to_owned();
        let n = self.entries.len();
        let mut i: usize = 0;
        proof {
            assert(self.entries@.skip(0) =~= self.entries@);
        }
        while i < n
            invariant
                i <= n,
                n == self.entries@.len(),
                k@ == key@,
                lookup(self.entries@.skip(i as int), key@) == lookup(self.entries@, key@),
            decreases n - i,
        {
            proof {
                assert(self.entries@.skip(i as int)[0] == self.entries@[i as int]);
                assert(self.entries@.skip(i as int).drop_first() =~= self.entries@.skip(i + 1));
            }
            if self.entries[i].0 == k {
                return self.entries[i].1.clone();
            }
            i = i + 1;
        }
        proof {
            assert(self.entries@.skip(n as int) =~= Seq::<(String, String)>::empty());
        }
        k
    }
}

/// The catalog key of an armor slot.
pub open spec fn armor_kind_key(kind: ArmorKind) -> Seq<char> {
    match kind {
        ArmorKind::Shoulder => "hud.bag.shoulders"@,
        ArmorKind::Chest => "hud.bag.chest"@,
        ArmorKind::Belt => "hud.bag.belt"@,
        ArmorKind::Hand => "hud.bag.hands"@,
        ArmorKind::Pants => "hud.bag.legs"@,
        ArmorKind::Foot => "hud.bag.feet"@,
        ArmorKind::Back => "hud.bag.back"@,
        ArmorKind::Ring => "hud.bag.ring"@,
        ArmorKind::Neck => "hud.bag.neck"@,
        ArmorKind::Head => "hud.bag.head"@,
        ArmorKind::Tabard => "hud.bag.tabard"@,
        ArmorKind::Bag => "hud.bag.bag"@,
    }
}

/// The worn slot of a piece of armor, as display text.
pub fn armor_kind(armor: &Armor, i18n: &Localization) -> (r: String)
    ensures
        r@ == i18n.get_spec(armor_kind_key(armor.kind)),
{
    match armor.kind {
        ArmorKind::Shoulder => i18n.get("hud.bag.shoulders"),
        ArmorKind::Chest => i18n.get("hud.bag.chest"),
        ArmorKind::Belt => i18n.get("hud.bag.belt"),
        ArmorKind::Hand => i18n.get("hud.bag.hands"),
        ArmorKind::Pants => i18n.get("hud.bag.legs"),
        ArmorKind::Foot => i18n.get("hud.bag.feet"),
        ArmorKind::Back => i18n.get("hud.bag.back"),
        ArmorKind::Ring => i18n.get("hud.bag.ring"),
        ArmorKind::Neck => i18n.get("hud.bag.neck"),
        ArmorKind::Head => i18n.get("hud.bag.head"),
        ArmorKind::Tabard => i18n.get("hud.bag.tabard"),
        ArmorKind::Bag => i18n.get("hud.bag.bag"),
    }
}

/// The catalog key of a tool family.
pub open spec fn tool_kind_key(kind: ToolKind) -> Seq<char> {
    match kind {
        ToolKind::Sword => "common.weapons.sword"@,
        ToolKind::Axe => "common.weapons.axe"@,
        ToolKind::Hammer => "common.weapons.hammer"@,
        ToolKind::Bow => "common.weapons.bow"@,
        ToolKind::Dagger => "common.weapons.dagger"@,
        ToolKind::Staff => "common.weapons.staff"@,
        ToolKind::Sceptre => "common.weapons.sceptre"@,
        ToolKind::Shield => "common.weapons.shield"@,
        ToolKind::Spear => "common.weapons.spear"@,
        ToolKind::HammerSimple => "common.weapons.hammer_simple"@,
        ToolKind::SwordSimple => "common.weapons.sword_simple"@,
        ToolKind::StaffSimple => "common.weapons.staff_simple"@,
        ToolKind::AxeSimple => "common.weapons.axe_simple"@,
        ToolKind::BowSimple => "common.weapons.bow_simple"@,
        ToolKind::Unique => "common.weapons.unique_simple"@,
        ToolKind::Debug => "common.tool.debug"@,
        ToolKind::Farming => "common.tool.farming"@,
        ToolKind::Pick => "common.tool.pick"@,
        ToolKind::Empty => "common.empty"@,
    }
}

/// The family of a tool, as display text.
pub fn tool_kind(tool: &Tool, i18n: &Localization) -> (r: String)
    ensures
        r@ == i18n.get_spec(tool_kind_key(tool.kind)),
{
    match tool.kind {
        ToolKind::Sword => i18n.get("common.weapons.sword"),
        ToolKind::Axe => i18n.get("common.weapons.axe"),
        ToolKind::Hammer => i18n.get("common.weapons.hammer"),
        ToolKind::Bow => i18n.get("common.weapons.bow"),
        ToolKind::Dagger => i18n.get("common.weapons.dagger"),
        ToolKind::Staff => i18n.get("common.weapons.staff"),
        ToolKind::Sceptre => i18n.get("common.weapons.sceptre"),
        ToolKind::Shield => i18n.get("common.weapons.shield"),
        ToolKind::Spear => i18n.get("common.weapons.spear"),
        ToolKind::HammerSimple => i18n.get("common.weapons.hammer_simple"),
        ToolKind::SwordSimple => i18n.get("common.weapons.sword_simple"),
        ToolKind::StaffSimple => i18n.get("common.weapons.staff_simple"),
        ToolKind::AxeSimple => i18n.get("common.weapons.axe_simple"),
        ToolKind::BowSimple => i18n.get("common.weapons.bow_simple"),
        ToolKind::Unique => i18n.get("common.weapons.unique_simple"),
        ToolKind::Debug => i18n.get("common.tool.debug"),
        ToolKind::Farming => i18n.get("common.tool.farming"),
        ToolKind::Pick => i18n.get("common.tool.pick"),
        ToolKind::Empty => i18n.get("common.empty"),
    }
}

/// The catalog key of a grip.
pub open spec fn hands_key(hands: Hands) -> Seq<char> {
    match hands {
        Hands::One => "common.hands.one"@,
        Hands::Two => "common.hands.two"@,
    }
}

/// The grip of a tool, as display text.
pub fn tool_hands(tool: &Tool, i18n: &Localization) -> (r: String)
    ensures
        r@ == i18n.get_spec(hands_key(tool.hands)),
{
    match tool.hands {
        Hands::One => i18n.get("common.hands.one"),
        Hands::Two => i18n.get("common.hands.two"),
    }
}

/// What `kind_text` shows for each kind of item.
pub open spec fn kind_text_spec(kind: ItemKind, loc: Localization) -> Seq<char> {
    match kind {
        ItemKind::Armor(armor) => loc.get_spec(armor_kind_key(armor.kind)),
        ItemKind::Tool(tool) => loc.get_spec(tool_kind_key(tool.kind)) + " ("@
            + loc.get_spec(hands_key(tool.hands)) + ")"@,
        ItemKind::Glider(_) => loc.get_spec("common.kind.glider"@),
        ItemKind::Consumable { .. } => loc.get_spec("common.kind.consumable"@),
        ItemKind::Throwable { .. } => loc.get_spec("common.kind.throwable"@),
        ItemKind::Utility { .. } => loc.get_spec("common.kind.utility"@),
        ItemKind::Ingredient { .. } => loc.get_spec("common.kind.ingredient"@),
        ItemKind::Lantern { .. } => loc.get_spec("common.kind.lantern"@),
    }
}

/// One line naming what an item is ("Sword (One-Handed)", "Consumable").
pub fn kind_text(kind: &ItemKind, i18n: &Localization) -> (r: String)
    ensures
        r@ == kind_text_spec(*kind, *i18n),
{
    match kind {
        ItemKind::Armor(armor) => armor_kind(armor, i18n),
        ItemKind::Tool(tool) => {
            let mut s = tool_kind(tool, i18n);
            s.append(" (");
            let hands = tool_hands(tool, i18n);
            s.append(hands.as_str());
            s.append(")");
            s
        },
        ItemKind::Glider(_) => i18n.get("common.kind.glider"),
        ItemKind::Consumable { .. } => i18n.get("common.kind.consumable"),
        ItemKind::Throwable { .. } => i18n.get("common.kind.throwable"),
        ItemKind::Utility { .. } => i18n.get("common.kind.utility"),
        ItemKind::Ingredient { .. } => i18n.get("common.kind.ingredient"),
        ItemKind::Lantern { .. } => i18n.get("common.kind.lantern"),
    }
}

/// What `protec2string` shows: the tenths value with one forced decimal
/// place, or "Inf" for invulnerability.
pub open spec fn protection_text(stat: Protection) -> Seq<char> {
    match stat {
        Protection::Normal(tenths) => dec_tenths_fixed(tenths as nat),
        Protection::Invincible => "Inf"@,
    }
}

/// An armor protection value as display text.
pub fn protec2string(stat: Protection) -> (r: String)
    ensures
        r@ == protection_text(stat),
{
    match stat {
        Protection::Normal(tenths) => tenths_to_dec_fixed(tenths as u64),
        Protection::Invincible => "Inf".to_owned(),
    }
}

/// What `statblock_desc` shows. The displayed numbers are derived from the
/// fixed-point thousandths fields: power and poise are shown scaled by ten,
/// crit chance as a percentage, speed and crit multiplier as they are.
pub open spec fn statblock_spec(stats: Stats) -> Seq<char> {
    "Power: "@ + dec_tenths_fixed((stats.power_thousandths / 10) as nat)
        + "\n\nPoise Strength: "@ + dec_tenths_fixed((stats.poise_strength_thousandths / 10) as nat)
        + "\n\nSpeed: "@ + dec_tenths_fixed((stats.speed_thousandths / 100) as nat)
        + "\n\nCrit chance: "@ + dec_tenths_fixed(stats.crit_chance_thousandths as nat)
        + "%\n\nCrit damage: x"@ + dec_tenths_fixed((stats.crit_mult_thousandths / 100) as nat)
        + "\n\n"@
}

/// The stat block of a tool, one display line per stat.
pub fn statblock_desc(stats: &Stats) -> (r: String)
    ensures
        r@ == statblock_spec(*stats),
{
    let mut s = "Power: ".to_owned();
    let power = tenths_to_dec_fixed((stats.power_thousandths / 10) as u64);
    s.append(power.as_str());
    s.append("\n\nPoise Strength: ");
    let poise = tenths_to_dec_fixed((stats.poise_strength_thousandths / 10) as u64);
    s.append(poise.as_str());
    s.append("\n\nSpeed: ");
    let speed = tenths_to_dec_fixed((stats.speed_thousandths / 100) as u64);
    s.append(speed.as_str());
    s.append("\n\nCrit chance: ");
    let crit = tenths_to_dec_fixed(stats.crit_chance_thousandths as u64);
    s.append(crit.as_str());
    s.append("%\n\nCrit damage: x");
    let mult = tenths_to_dec_fixed((stats.crit_mult_thousandths / 100) as u64);
    s.append(mult.as_str());
    s.append("\n\n");
    s
}

/// The total a buff adds up to, in tenths: its strength, scaled by the
/// duration when one is set.
pub open spec fn str_total_tenths(data: BuffData) -> nat {
    match data.duration_secs {
        Some(secs) => (data.strength_tenths as nat) * (secs as nat),
        None => data.strength_tenths as nat,
    }
}

/// The stat line of one buff.
pub open spec fn buff_text(loc: Localization, kind: BuffKind, data: BuffData) -> Seq<char> {
    match kind {
        BuffKind::Saturation | BuffKind::Regeneration | BuffKind::Potion => replace_seq(
            loc.get_spec("buff.stat.health"@),
            "{str_total}"@,
            dec_tenths(str_total_tenths(data)),
        ),
        BuffKind::IncreaseMaxEnergy => replace_seq(
            loc.get_spec("buff.stat.increase_max_stamina"@),
            "{strength}"@,
            dec_tenths(data.strength_tenths as nat),
        ),
        BuffKind::IncreaseMaxHealth => replace_seq(
            loc.get_spec("buff.stat.increase_max_health"@),
            "{strength}"@,
            dec_tenths(data.strength_tenths as nat),
        ),
        BuffKind::Invulnerability => loc.get_spec("buff.stat.invulenrability"@),
        _ => Seq::<char>::empty(),
    }
}

/// The duration line of one buff, with its leading space; empty for the
/// kinds and cases that show none.
pub open spec fn dur_text(loc: Localization, kind: BuffKind, data: BuffData) -> Seq<char> {
    match data.duration_secs {
        Some(secs) => match kind {
            BuffKind::Saturation | BuffKind::Regeneration => seq![' '] + replace_seq(
                loc.get_spec("buff.text.over_seconds"@),
                "{dur_secs}"@,
                dec_digits(secs as nat),
            ),
            BuffKind::IncreaseMaxEnergy | BuffKind::IncreaseMaxHealth
            | BuffKind::Invulnerability => seq![' '] + replace_seq(
                loc.get_spec("buff.text.for_seconds"@),
                "{dur_secs}"@,
                dec_digits(secs as nat),
            ),
            _ => Seq::<char>::empty(),
        },
        None => match kind {
            BuffKind::Saturation | BuffKind::Regeneration => seq![' ']
                + loc.get_spec("buff.text.every_second"@),
            _ => Seq::<char>::empty(),
        },
    }
}

/// What one effect contributes to a consumable's description.
pub open spec fn effect_text(loc: Localization, e: Effect) -> Seq<char> {
    match e {
        Effect::Buff(b) => match b.kind {
            BuffKind::Bleeding | BuffKind::CampfireHeal | BuffKind::Cursed
            | BuffKind::ProtectingWard => Seq::<char>::empty(),
            _ => buff_text(loc, b.kind, b.data) + dur_text(loc, b.kind, b.data),
        },
        _ => Seq::<char>::empty(),
    }
}

/// What `consumable_desc` shows: the effects' texts in order.
pub open spec fn consumable_text(loc: Localization, effects: Seq<Effect>) -> Seq<char>
    decreases effects.len(),
{
    if effects.len() == 0 {
        Seq::<char>::empty()
    } else {
        effect_text(loc, effects[0]) + consumable_text(loc, effects.drop_first())
    }
}

/// Describes a consumable's effects: one stat line per buff, with its
/// duration where one applies.
pub fn consumable_desc(effects: &Vec<Effect>, i18n: &Localization) -> (r: String)
    requires
        forall|i: int| 0 <= i < effects@.len() ==> match #[trigger] effects@[i] {
            Effect::Buff(b) => match b.data.duration_secs {
                Some(secs) => (b.data.strength_tenths as nat) * secs <= u64::MAX,
                None => true,
            },
            _ => true,
        },
    ensures
        r@ == consumable_text(*i18n, effects@),
{
    let n = effects.len();
    let mut out = String::new();
    let mut i: usize = 0;
    proof {
        assert(effects@.skip(0) =~= effects@);
    }
    while i < n
        invariant
            i <= n,
            n == effects@.len(),
            forall|k: int| 0 <= k < effects@.len() ==> match #[trigger] effects@[k] {
                Effect::Buff(b) => match b.data.duration_secs {
                    Some(secs) => (b.data.strength_tenths as nat) * secs <= u64::MAX,
                    None => true,
                },
                _ => true,
            },
            out@ + consumable_text(*i18n, effects@.skip(i as int))
                == consumable_text(*i18n, effects@),
        decreases n - i,
    {
        proof {
            assert(effects@.skip(i as int)[0] == effects@[i as int]);
            assert(effects@.skip(i as int).drop_first() =~= effects@.skip(i + 1));
        }
        match &effects[i] {
            Effect::Buff(b) => {
                match b.kind {
                    BuffKind::Bleeding | BuffKind::CampfireHeal | BuffKind::Cursed
                    | BuffKind::ProtectingWard => {},
                    _ => {
                        let piece = buff_piece(b.kind, b.data, i18n);
                        out.append(piece.as_str());
                        let dur = dur_piece(b.kind, b.data, i18n);
                        out.append(dur.as_str());
                    },
                }
            },
            _ => {},
        }
        i = i + 1;
    }
    proof {
        assert(effects@.skip(n as int) =~= Seq::<Effect>::empty());
    }
    out
}

/// The stat line of one buff.
fn buff_piece(kind: BuffKind, data: BuffData, i18n: &Localization) -> (r: String)
    requires
        match data.duration_secs {
            Some(secs) => (data.strength_tenths as nat) * secs <= u64::MAX,
            None => true,
        },
    ensures
        r@ == buff_text(*i18n, kind, data),
{
    match kind {
        BuffKind::Saturation | BuffKind::Regeneration | BuffKind::Potion => {
            let total: u64 = match data.duration_secs {
                Some(secs) => (data.strength_tenths as u64) * secs,
                None => data.strength_tenths as u64,
            };
            let template = i18n.get("buff.stat.health");
            let value = tenths_to_dec(total);
            proof {
                reveal_strlit("{str_total}");
            }
            replace_str(template.as_str(), "{str_total}", value.as_str())
        },
        BuffKind::IncreaseMaxEnergy => {
            let template = i18n.get("buff.stat.increase_max_stamina");
            let value = tenths_to_dec(data.strength_tenths as u64);
            proof {
                reveal_strlit("{strength}");
            }
            replace_str(template.as_str(), "{strength}", value.as_str())
        },
        BuffKind::IncreaseMaxHealth => {
            let template = i18n.get("buff.stat.increase_max_health");
            let value = tenths_to_dec(data.strength_tenths as u64);
            proof {
                reveal_strlit("{strength}");
            }
            replace_str(template.as_str(), "{strength}", value.as_str())
        },
        BuffKind::Invulnerability => i18n.get("buff.stat.invulenrability"),
        _ => String::new(),
    }
}

/// The duration line of one buff, with its leading space.
fn dur_piece(kind: BuffKind, data: BuffData, i18n: &Localization) -> (r: String)
    ensures
        r@ == dur_text(*i18n, kind, data),
{
    match data.duration_secs {
        Some(secs) => match kind {
            BuffKind::Saturation | BuffKind::Regeneration => {
                let mut s = " ".to_owned();
                proof {
                    reveal_strlit(" ");
                    reveal_strlit("{dur_secs}");
                    assert(" "@ =~= seq![' ']);
                }
                let template = i18n.get("buff.text.over_seconds");
                let value = u64_to_dec(secs);
                let body = replace_str(template.as_str(), "{dur_secs}", value.as_str());
                s.append(body.as_str());
                s
            },
            BuffKind::IncreaseMaxEnergy | BuffKind::IncreaseMaxHealth
            | BuffKind::Invulnerability => {
                let mut s = " ".to_owned();
                proof {
                    reveal_strlit(" ");
                    reveal_strlit("{dur_secs}");
                    assert(" "@ =~= seq![' ']);
                }
                let template = i18n.get("buff.text.for_seconds");
                let value = u64_to_dec(secs);
                let body = replace_str(template.as_str(), "{dur_secs}", value.as_str());
                s.append(body.as_str());
                s
            },
            _ => String::new(),
        },
        None => match kind {
            BuffKind::Saturation | BuffKind::Regeneration => {
                let mut s = " ".to_owned();
                proof {
                    reveal_strlit(" ");
                    assert(" "@ =~= seq![' ']);
                }
                let body = i18n.get("buff.text.every_second");
                s.append(body.as_str());
                s
            },
            _ => String::new(),
        },
    }
}

} // verus!
