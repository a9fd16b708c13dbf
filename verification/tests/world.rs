use stream_mux::comp::{CharacterState, Ori, Pos, Vec3i, Vel};
use stream_mux::idle::{EcsStateData, State};
use stream_mux::item::{Damage, Effect, Reagent};
use stream_mux::object::{
    HealthSource, Object, ObjectRow, RadiusEffect, ServerEvent, Sys,
};
use stream_mux::terrain::{Block, Reclaim, SpriteKind};

fn v(x: i64, y: i64, z: i64) -> Vec3i {
    Vec3i { x, y, z }
}

#[test]
fn idle_state_changes_nothing() {
    let data = EcsStateData {
        character: CharacterState::Idle,
        pos: Pos(v(1000, 2000, 3000)),
        vel: Vel(v(0, 0, -500)),
        ori: Ori(v(1, 0, 0)),
    };
    let state = State::new(&data);
    let update = state.handle(&data);
    assert_eq!(update.character, data.character);
    assert_eq!(update.pos, data.pos);
    assert_eq!(update.vel, data.vel);
    assert_eq!(update.ori, data.ori);
}

#[test]
fn bomb_explodes_on_surface() {
    let row = ObjectRow {
        entity: 9,
        pos: v(10, 20, 30),
        vel_z: 0,
        on_surface: true,
        object: Object::Bomb { owner: Some(4) },
    };
    let evs = Sys::handle_object(&row);
    assert_eq!(evs.len(), 2);
    assert!(matches!(
        evs[0],
        ServerEvent::Destroy { entity: 9, cause: HealthSource::Suicide }
    ));
    match &evs[1] {
        ServerEvent::Explosion { pos, explosion, owner, reagent } => {
            assert_eq!(*pos, v(10, 20, 30));
            assert_eq!(*owner, Some(4));
            assert!(reagent.is_none());
            assert_eq!(explosion.radius_tenths, 120);
            assert_eq!(explosion.energy_regen, 0);
            assert_eq!(explosion.effects.len(), 2);
            match &explosion.effects[0] {
                RadiusEffect::Entity(group, list) => {
                    assert!(group.is_none());
                    assert!(matches!(list[0], Effect::Damage(Damage { value: 500, .. })));
                },
                _ => panic!("wrong payload"),
            }
            assert!(matches!(explosion.effects[1], RadiusEffect::TerrainDestruction(40)));
        },
        _ => panic!("wrong event"),
    }
}

#[test]
fn firework_explodes_only_when_falling() {
    let mut row = ObjectRow {
        entity: 3,
        pos: v(0, 0, 0),
        vel_z: 100,
        on_surface: false,
        object: Object::Firework { owner: None, reagent: Reagent::Red },
    };
    assert!(Sys::handle_object(&row).is_empty());
    row.vel_z = -1;
    let evs = Sys::handle_object(&row);
    assert_eq!(evs.len(), 2);
    match &evs[1] {
        ServerEvent::Explosion { reagent, explosion, .. } => {
            assert_eq!(*reagent, Some(Reagent::Red));
            match &explosion.effects[0] {
                RadiusEffect::Entity(_, list) => {
                    assert!(matches!(list[0], Effect::Damage(Damage { value: 50, .. })));
                },
                _ => panic!("wrong payload"),
            }
        },
        _ => panic!("wrong event"),
    }
}

#[test]
fn object_system_walks_rows_in_order() {
    let mut sys = Sys;
    let rows = vec![
        ObjectRow {
            entity: 1,
            pos: v(0, 0, 0),
            vel_z: 0,
            on_surface: false,
            object: Object::Bomb { owner: None },
        },
        ObjectRow {
            entity: 2,
            pos: v(0, 0, 0),
            vel_z: 0,
            on_surface: true,
            object: Object::Bomb { owner: None },
        },
    ];
    let evs = sys.run(&rows);
    assert_eq!(evs.len(), 2);
    assert!(matches!(evs[0], ServerEvent::Destroy { entity: 2, .. }));
}

#[test]
fn reclaim_plain_sprites() {
    let apple = Block { sprite: Some(SpriteKind::Apple) };
    match try_reclaim(apple, 0) {
        Some(Reclaim::Item(id)) => assert_eq!(id, "common.items.food.apple"),
        _ => panic!("apple must be reclaimable"),
    }
    assert!(try_reclaim(Block { sprite: None }, 0).is_none());
    assert!(try_reclaim(Block { sprite: Some(SpriteKind::Window) }, 0).is_none());
}

#[test]
fn reclaim_chest_picks_table_by_roll() {
    let chest = Block { sprite: Some(SpriteKind::Chest) };
    match try_reclaim(chest, 0) {
        Some(Reclaim::LootTable(t)) => {
            assert_eq!(t, "common.loot_tables.loot_table_weapon_uncommon")
        },
        _ => panic!("chest must yield a loot table"),
    }
    match try_reclaim(chest, 7 + 4) {
        Some(Reclaim::LootTable(t)) => {
            assert_eq!(t, "common.loot_tables.loot_table_armor_heavy")
        },
        _ => panic!("chest must yield a loot table"),
    }
    match try_reclaim(Block { sprite: Some(SpriteKind::Crate) }, 5) {
        Some(Reclaim::LootTable(t)) => assert_eq!(t, "common.loot_tables.loot_table_food"),
        _ => panic!("crate must yield a loot table"),
    }
}

fn try_reclaim(block: Block, roll: u64) -> Option<Reclaim> {
    stream_mux::terrain::try_reclaim_from_block(block, roll)
}
