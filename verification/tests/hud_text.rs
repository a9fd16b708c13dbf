use stream_mux::hud::{
    armor_kind, consumable_desc, kind_text, protec2string, statblock_desc, tool_hands, tool_kind,
    Localization,
};
use stream_mux::item::{
    Armor, ArmorKind, BuffData, BuffEffect, BuffKind, Effect, Glider, Hands, ItemKind, Protection,
    Stats, Tool, ToolKind,
};

fn catalog() -> Localization {
    let mut i18n = Localization::new();
    for (key, value) in [
        ("common.weapons.sword", "Sword"),
        ("common.hands.one", "One-Handed"),
        ("common.hands.two", "Two-Handed"),
        ("hud.bag.chest", "Chest"),
        ("common.kind.glider", "Glider"),
        ("buff.stat.health", "Restores {str_total} Health"),
        ("buff.stat.increase_max_stamina", "Raises Maximum Stamina by {strength}"),
        ("buff.text.over_seconds", "over {dur_secs} seconds"),
        ("buff.text.for_seconds", "for {dur_secs} seconds"),
        ("buff.text.every_second", "every second"),
    ] {
        i18n.add(key.to_owned(), value.to_owned());
    }
    i18n
}

fn sword() -> Tool {
    Tool {
        kind: ToolKind::Sword,
        hands: Hands::One,
        stats: Stats {
            power_thousandths: 900,
            poise_strength_thousandths: 1000,
            speed_thousandths: 1500,
            crit_chance_thousandths: 120,
            crit_mult_thousandths: 1800,
        },
    }
}

#[test]
fn catalog_lookup_and_fallback() {
    let i18n = catalog();
    assert_eq!(i18n.get("common.weapons.sword"), "Sword");
    assert_eq!(i18n.get("no.such.key"), "no.such.key");
}

#[test]
fn tool_text() {
    let i18n = catalog();
    let tool = sword();
    assert_eq!(tool_kind(&tool, &i18n), "Sword");
    assert_eq!(tool_hands(&tool, &i18n), "One-Handed");
    assert_eq!(kind_text(&ItemKind::Tool(tool), &i18n), "Sword (One-Handed)");
}

#[test]
fn armor_and_glider_text() {
    let i18n = catalog();
    let armor = Armor { kind: ArmorKind::Chest, protection: Protection::Normal(200) };
    assert_eq!(armor_kind(&armor, &i18n), "Chest");
    assert_eq!(kind_text(&ItemKind::Armor(armor), &i18n), "Chest");
    let glider = ItemKind::Glider(Glider { kind: "cloth".to_owned() });
    assert_eq!(kind_text(&glider, &i18n), "Glider");
}

#[test]
fn protection_to_string() {
    assert_eq!(protec2string(Protection::Normal(200)), "20.0");
    assert_eq!(protec2string(Protection::Normal(125)), "12.5");
    assert_eq!(protec2string(Protection::Invincible), "Inf");
}

#[test]
fn statblock_text() {
    let desc = statblock_desc(&sword().stats);
    assert_eq!(
        desc,
        "Power: 9.0\n\nPoise Strength: 10.0\n\nSpeed: 1.5\n\n\
         Crit chance: 12.0%\n\nCrit damage: x1.8\n\n"
    );
}

#[test]
fn consumable_description() {
    let i18n = catalog();
    // A regeneration over 30 seconds: strength 2/tick adds up to 60.
    let effects = vec![
        Effect::Buff(BuffEffect {
            kind: BuffKind::Regeneration,
            data: BuffData { strength_tenths: 20, duration_secs: Some(30) },
        }),
    ];
    assert_eq!(consumable_desc(&effects, &i18n), "Restores 60 Health over 30 seconds");
}

#[test]
fn consumable_skips_silent_buffs() {
    let i18n = catalog();
    let effects = vec![
        Effect::Buff(BuffEffect {
            kind: BuffKind::Bleeding,
            data: BuffData { strength_tenths: 10, duration_secs: Some(5) },
        }),
        Effect::Buff(BuffEffect {
            kind: BuffKind::IncreaseMaxEnergy,
            data: BuffData { strength_tenths: 125, duration_secs: Some(45) },
        }),
    ];
    assert_eq!(
        consumable_desc(&effects, &i18n),
        "Raises Maximum Stamina by 12.5 for 45 seconds"
    );
}

#[test]
fn consumable_without_duration_ticks_every_second() {
    let i18n = catalog();
    let effects = vec![
        Effect::Buff(BuffEffect {
            kind: BuffKind::Saturation,
            data: BuffData { strength_tenths: 30, duration_secs: None },
        }),
    ];
    assert_eq!(consumable_desc(&effects, &i18n), "Restores 3 Health every second");
}

#[test]
fn earlier_catalog_entries_win() {
    let mut i18n = Localization::new();
    i18n.add("k".to_owned(), "first".to_owned());
    i18n.add("k".to_owned(), "second".to_owned());
    assert_eq!(i18n.get("k"), "first");
}

#[test]
fn consumable_desc_of_nothing_is_empty() {
    let i18n = catalog();
    assert_eq!(consumable_desc(&Vec::new(), &i18n), "");
}
