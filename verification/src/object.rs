//! Server-side behaviour of simple world objects: a bomb explodes once it
//! rests on a surface, a firework once it starts falling.

use vstd::prelude::*;
use crate::comp::Vec3i;
use crate::item::{Damage, DamageSource, Effect, PoiseChange, PoiseSource, Reagent};

verus! {

/// A misc world object with a behaviour of its own.
#[derive(Clone, Copy, Debug, PartialEq, Eq, Structural)]
pub enum Object {
    Bomb { owner: Option<u64> },
    Firework { owner: Option<u64>, reagent: Reagent },
}

/// Why an entity's health was zeroed. This system only ever destroys an
/// object by its own hand.
#[derive(Clone, Copy, Debug, PartialEq, Eq, Structural)]
pub enum HealthSource {
    Suicide,
}

/// One effect an explosion applies within its radius.
#[derive(Debug)]
pub enum RadiusEffect {
    /// Apply the effects to entities in range, optionally limited to a group.
    Entity(Option<u64>, Vec<Effect>),
    /// Destroy terrain, with the given strength in fixed-point tenths.
    TerrainDestruction(u32),
}

/// An explosion: its payload, radius (fixed-point tenths) and the energy it
/// refunds the owner.
#[derive(Debug)]
pub struct Explosion {
    pub effects: Vec<RadiusEffect>,
    pub radius_tenths: u32,
    pub energy_regen: u32,
}

/// An event this system raises for the server to apply.
#[derive(Debug)]
pub enum ServerEvent {
    Destroy { entity: u64, cause: HealthSource },
    Explosion {
        pos: Vec3i,
        explosion: Explosion,
        owner: Option<u64>,
        reagent: Option<Reagent>,
    },
}

/// One joined row the system walks: an object entity with the components it
/// reads.
#[derive(Clone, Copy, Debug, PartialEq, Eq, Structural)]
pub struct ObjectRow {
    pub entity: u64,
    pub pos: Vec3i,
    /// Vertical velocity, fixed-point thousandths.
    pub vel_z: i64,
    /// True when physics reports the entity resting on a surface.
    pub on_surface: bool,
    pub object: Object,
}

/// The explosion payload of a bomb: heavy damage, a strong stagger, and
/// terrain destruction.
pub open spec fn bomb_payload(effects: Seq<RadiusEffect>) -> bool {
    &&& effects.len() == 2
    &&& effects[0] matches RadiusEffect::Entity(group, list) && group is None
        && list@ =~= seq![
            Effect::Damage(Damage { source: DamageSource::Explosion, value: 500 }),
            Effect::Poise(PoiseChange { amount: -60i32, source: PoiseSource::Explosion }),
        ]
    &&& effects[1] matches RadiusEffect::TerrainDestruction(s) && s == 40
}

/// The explosion payload of a firework: light damage, a stagger, and
/// terrain destruction.
pub open spec fn firework_payload(effects: Seq<RadiusEffect>) -> bool {
    &&& effects.len() == 2
    &&& effects[0] matches RadiusEffect::Entity(group, list) && group is None
        && list@ =~= seq![
            Effect::Damage(Damage { source: DamageSource::Explosion, value: 50 }),
            Effect::Poise(PoiseChange { amount: -30i32, source: PoiseSource::Explosion }),
        ]
    &&& effects[1] matches RadiusEffect::TerrainDestruction(s) && s == 40
}

/// Whether a row fires this tick: a bomb on a surface, or a firework whose
/// vertical velocity turned negative.
pub open spec fn row_fires(row: ObjectRow) -> bool {
    match row.object {
        Object::Bomb { .. } => row.on_surface,
        Object::Firework { .. } => row.vel_z < 0,
    }
}

/// How many events a row contributes: a destroy plus an explosion when it
/// fires, none otherwise.
pub open spec fn row_event_count(row: ObjectRow) -> nat {
    if row_fires(row) {
        2nat
    } else {
        0nat
    }
}

/// The events a row contributes when it fires: destroy the object itself,
/// then the matching explosion at its position.
pub open spec fn row_events_ok(row: ObjectRow, evs: Seq<ServerEvent>) -> bool {
    if !row_fires(row) {
        evs.len() == 0
    } else {
        &&& evs.len() == 2
        &&& evs[0] matches ServerEvent::Destroy { entity, cause }
            && entity == row.entity && cause == HealthSource::Suicide
        &&& evs[1] matches ServerEvent::Explosion { pos, explosion, owner, reagent } && {
            &&& pos == row.pos
            &&& explosion.radius_tenths == 120
            &&& explosion.energy_regen == 0
            &&& match row.object {
                Object::Bomb { owner: o } => owner == o && reagent is None
                    && bomb_payload(explosion.effects@),
                Object::Firework { owner: o, reagent: r } => owner == o
                    && reagent == Some(r) && firework_payload(explosion.effects@),
            }
        }
    }
}

/// The whole tick's events are the rows' contributions, in row order.
pub open spec fn rows_events_ok(rows: Seq<ObjectRow>, evs: Seq<ServerEvent>) -> bool
    decreases rows.len(),
{
    if rows.len() == 0 {
        evs.len() == 0
    } else {
        let k = row_event_count(rows[0]) as int;
        &&& evs.len() >= k
        &&& row_events_ok(rows[0], evs.take(k))
        &&& rows_events_ok(rows.drop_first(), evs.skip(k))
    }
}

/// A row's contribution also pins its length.
proof fn lemma_row_events_len(row: ObjectRow, evs: Seq<ServerEvent>)
    requires
        row_events_ok(row, evs),
    ensures
        evs.len() == row_event_count(row),
{
}

/// Appending one row's events after an already-consistent prefix keeps the
/// whole consistent.
proof fn lemma_rows_events_append(
    rows: Seq<ObjectRow>,
    evs: Seq<ServerEvent>,
    row: ObjectRow,
    revs: Seq<ServerEvent>,
)
    requires
        rows_events_ok(rows, evs),
        row_events_ok(row, revs),
    ensures
        rows_events_ok(rows.push(row), evs + revs),
    decreases rows.len(),
{
    lemma_row_events_len(row, revs);
    if rows.len() == 0 {
        assert(evs.len() == 0);
        assert((evs + revs) =~= revs);
        let k = row_event_count(row) as int;
        assert(rows.push(row)[0] == row);
        assert(rows.push(row).drop_first() =~= Seq::<ObjectRow>::empty());
        assert(revs.take(k) =~= revs);
        assert(revs.skip(k) =~= Seq::<ServerEvent>::empty());
        assert((evs + revs).skip(k) =~= Seq::<ServerEvent>::empty());
        assert((evs + revs).take(k) == revs.take(k));
        assert(rows_events_ok(rows.push(row).drop_first(), (evs + revs).skip(k)));
        assert(row_events_ok(rows.push(row)[0], (evs + revs).take(k)));
    } else {
        let k = row_event_count(rows[0]) as int;
        assert(rows.push(row)[0] == rows[0]);
        assert(rows.push(row).drop_first() =~= rows.drop_first().push(row));
        assert((evs + revs).take(k) =~= evs.take(k));
        assert((evs + revs).skip(k) =~= evs.skip(k) + revs);
        lemma_rows_events_append(rows.drop_first(), evs.skip(k), row, revs);
        assert(rows.push(row).drop_first() == rows.drop_first().push(row));
        assert((evs + revs).skip(k) == evs.skip(k) + revs);
        assert(rows_events_ok(rows.push(row).drop_first(), (evs + revs).skip(k)));
        assert(row_event_count(rows.push(row)[0]) as int == k);
        assert((evs + revs).subrange(k, (evs + revs).len() as int) == (evs + revs).skip(k));
        assert((evs + revs).take(k) == evs.take(k));
        assert(row_events_ok(rows.push(row)[0], (evs + revs).take(k)));
    }
}

/// This system walks the misc world objects each tick.
#[derive(Clone, Copy, Debug, PartialEq, Eq, Structural, Default)]
pub struct Sys;

impl Sys {
    /// The events one row contributes this tick.
    pub fn handle_object(row: &ObjectRow) -> (evs: Vec<ServerEvent>)
        ensures
            row_events_ok(*row, evs@),
    {
        let fires = match row.object {
            Object::Bomb { .. } => row.on_surface,
            Object::Firework { .. } => row.vel_z < 0,
        };
        let mut evs: Vec<ServerEvent> = Vec::new();
        if !fires {
            return evs;
        }
        evs.push(ServerEvent::Destroy { entity: row.entity, cause: HealthSource::Suicide });
        let (value, amount) = match row.object {
            Object::Bomb { .. } => (500u32, -60i32),
            Object::Firework { .. } => (50u32, -30i32),
        };
        let mut list: Vec<Effect> = Vec::new();
        list.push(Effect::Damage(Damage { source: DamageSource::Explosion, value }));
        list.push(Effect::Poise(PoiseChange { amount, source: PoiseSource::Explosion }));
        let mut effects: Vec<RadiusEffect> = Vec::new();
        effects.push(RadiusEffect::Entity(None, list));
        effects.push(RadiusEffect::TerrainDestruction(40));
        let (owner, reagent) = match row.object {
            Object::Bomb { owner } => (owner, None),
            Object::Firework { owner, reagent } => (owner, Some(reagent)),
        };
        evs.push(ServerEvent::Explosion {
            pos: row.pos,
            explosion: Explosion { effects, radius_tenths: 120, energy_regen: 0 },
            owner,
            reagent,
        });
        evs
    }

    /// One tick: every row's events, in row order.
    pub fn run(&mut self, rows: &Vec<ObjectRow>) -> (evs: Vec<ServerEvent>)
        ensures
            rows_events_ok(rows@, evs@),
    {
        let n = rows.len();
        let mut out: Vec<ServerEvent> = Vec::new();
        let mut i: usize = 0;
        proof {
            assert(rows@.take(0) =~= Seq::<ObjectRow>::empty());
            assert(out@ =~= Seq::<ServerEvent>::empty());
        }
        while i < n
            invariant
                i <= n,
                n == rows@.len(),
                rows_events_ok(rows@.take(i as int), out@),
            decreases n - i,
        {
            let ghost out_pre = out@;
            let mut evs = Sys::handle_object(&rows[i]);
            let ghost revs = evs@;
            out.append(&mut evs);
            proof {
                lemma_rows_events_append(rows@.take(i as int), out_pre, rows@[i as int], revs);
                assert(rows@.take(i as int).push(rows@[i as int]) =~= rows@.take(i + 1));
            }
            i = i + 1;
        }
        proof {
            assert(rows@.take(n as int) =~= rows@);
        }
        out
    }
}

} // verus!
