use stream_mux::item::{
    BuffData, BuffEffect, BuffKind, Effect, Item, ItemDef, ItemKind, Lantern, Quality, Rgb,
};

fn apple_def() -> ItemDef {
    ItemDef {
        item_definition_id: "common.items.food.apple".to_owned(),
        item_config: None,
        name: "Apple".to_owned(),
        description: "A crisp apple.".to_owned(),
        kind: ItemKind::Consumable {
            kind: "apple".to_owned(),
            effect: vec![Effect::Buff(BuffEffect {
                kind: BuffKind::Saturation,
                data: BuffData { strength_tenths: 10, duration_secs: Some(5) },
            })],
        },
        quality: Quality::Common,
        slots: 0,
    }
}

fn bag_def() -> ItemDef {
    ItemDef {
        item_definition_id: "common.items.armor.bag".to_owned(),
        item_config: None,
        name: "Bag".to_owned(),
        description: "Carries things.".to_owned(),
        kind: ItemKind::Lantern(Lantern {
            kind: "black".to_owned(),
            color: Rgb { r: 255, g: 200, b: 90 },
            strength_thousandths: 3000,
            flicker_thousandths: 250,
        }),
        quality: Quality::High,
        slots: 4,
    }
}

#[test]
fn new_item_has_one_and_empty_slots() {
    let item = Item::new_from_item_def(bag_def());
    assert_eq!(item.amount(), 1);
    assert_eq!(item.num_slots(), 4);
    assert_eq!(item.slots().len(), 4);
    assert_eq!(item.free_slots(), 4);
    assert_eq!(item.populated_slots(), 0);
    assert_eq!(item.name(), "Bag");
    assert_eq!(item.description(), "Carries things.");
    assert_eq!(item.quality(), Quality::High);
}

#[test]
fn amounts_follow_stackability() {
    let mut apple = Item::new_from_item_def(apple_def());
    assert!(apple.is_stackable());
    assert!(apple.increase_amount(9).is_ok());
    assert_eq!(apple.amount(), 10);
    assert!(apple.decrease_amount(3).is_ok());
    assert_eq!(apple.amount(), 7);
    // The stack may never empty out.
    assert!(apple.decrease_amount(7).is_err());
    assert_eq!(apple.amount(), 7);
    // Nor overflow.
    assert!(apple.increase_amount(u32::MAX).is_err());
    assert!(apple.set_amount(64).is_ok());
    assert!(apple.set_amount(0).is_err());

    let mut lantern = Item::new_from_item_def(bag_def());
    assert!(!lantern.is_stackable());
    assert!(lantern.set_amount(2).is_err());
    assert!(lantern.set_amount(1).is_ok());
}

#[test]
fn items_compare_by_definition_id() {
    let a = Item::new_from_item_def(apple_def());
    let b = a.duplicate();
    let c = Item::new_from_item_def(bag_def());
    assert!(a == b);
    assert!(a != c);
    assert!(a.is_same_item_def(&apple_def()));
    assert!(!a.is_same_item_def(&bag_def()));
    assert_eq!(a.item_definition_id(), "common.items.food.apple");
}

#[test]
fn drain_empties_all_slots() {
    let mut bag = Item::new_from_item_def(bag_def());
    bag.slots[0] = Some(Item::new_from_item_def(apple_def()));
    bag.slots[2] = Some(Item::new_from_item_def(apple_def()));
    let taken = bag.drain();
    assert_eq!(taken.len(), 2);
    assert_eq!(taken[0].name(), "Apple");
    assert_eq!(bag.free_slots(), 4);
    assert_eq!(bag.populated_slots(), 0);
}

#[test]
fn lantern_accessors() {
    let lantern = Lantern {
        kind: "blue".to_owned(),
        color: Rgb { r: 0, g: 10, b: 200 },
        strength_thousandths: 4500,
        flicker_thousandths: 500,
    };
    assert_eq!(lantern.strength(), 4500);
    assert_eq!(lantern.color(), Rgb { r: 0, g: 10, b: 200 });
}

#[test]
fn equippable_kinds() {
    assert!(ItemKind::Lantern(Lantern {
        kind: "k".to_owned(),
        color: Rgb { r: 0, g: 0, b: 0 },
        strength_thousandths: 0,
        flicker_thousandths: 0,
    })
    .is_equippable());
    assert!(!ItemKind::Ingredient { kind: "twig".to_owned() }.is_equippable());
}

#[test]
fn specifier_backslashes_become_dots() {
    assert_eq!(
        ItemDef::definition_id_from_specifier("common\\items\\food\\apple"),
        "common.items.food.apple"
    );
    assert_eq!(
        ItemDef::definition_id_from_specifier("common.items.food.apple"),
        "common.items.food.apple"
    );
}

#[test]
fn persistence_id_is_dropped_in_world() {
    let mut item = Item::new_from_item_def(apple_def());
    assert_eq!(item.get_item_id_for_database(), None);
    item.item_id = Some(11);
    assert_eq!(item.get_item_id_for_database(), Some(11));
    item.put_in_world();
    assert_eq!(item.get_item_id_for_database(), None);
}

#[test]
fn slots_can_be_edited_in_place() {
    let mut bag = Item::new_from_item_def(bag_def());
    if let Some(slot) = bag.slot_mut(1) {
        *slot = Some(Item::new_from_item_def(apple_def()));
    }
    assert_eq!(bag.populated_slots(), 1);
    bag.slots_mut().clear();
    assert_eq!(bag.slots().len(), 0);
}
