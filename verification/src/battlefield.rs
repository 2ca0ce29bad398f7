//! The battlefield: the tile grid, the four turret assemblies and the
//! transient projectiles, with the systems that mutate them — trigger
//! handling, shot firing, collision resolution, zero-charge cleanup,
//! elimination and restart.  The state lives in explicit data tables with
//! integer indices as stable identifiers; the host physics engine feeds the
//! collision handlers opaque pair reports translated into [`CollisionPair`]
//! values.

use vstd::prelude::*;

verus! {

use std::collections::VecDeque;

use crate::charge::Charge;
use crate::charge::spec_level;
use crate::charge::spec_saturating_mul;
use crate::charge::BOOSTED_TURRET_CHARGE_VALUE;
use crate::panel::TriggerEvent;
use crate::panel::TriggerType;
use crate::participant::Participant;
use crate::participant::ParticipantMap;
use crate::participant::spec_unchanged_except;

/// Tiles along one edge of a quadrant.
pub const TILE_COUNT: usize = 100;

/// Tiles in one participant's quadrant.
pub const QUADRANT_TILE_COUNT: usize = TILE_COUNT * TILE_COUNT;

/// Tiles on the whole battlefield: one quadrant per participant.
pub const TILE_TOTAL: usize = 4 * QUADRANT_TILE_COUNT;

/// The time in milliseconds after getting hit that a turret's charge will
/// reset to the bare minimum whenever it fires, instead of
/// [`BOOSTED_TURRET_CHARGE_VALUE`].
pub const TURRET_BOOST_COOLDOWN_MILLIS: i64 = 5000;

/// How far below the queued charge's level a burst pellet's value sits.
pub const MULTI_SHOT_CHARGE_OFFSET: u64 = 8;

/// Speed of a charged shot, in abstract velocity units.
pub const CHARGED_SHOT_BULLET_SPEED: u64 = 250;

/// Speed of a burst pellet, in abstract velocity units.
pub const BURST_SHOT_BULLET_SPEED: u64 = 500;

/// An external request to reset the match.
#[derive(Clone, Copy, Debug, Default, PartialEq, Eq, Structural)]
pub struct RestartEvent;

/// Reports that a participant's turret reached zero charge and the
/// participant left the match.
#[derive(Clone, Copy, Debug, PartialEq, Eq, Structural)]
pub struct EliminationEvent {
    pub participant: Participant,
}

impl EliminationEvent {
    pub fn new(participant: Participant) -> (event: Self)
        ensures
            event == (EliminationEvent { participant }),
    {
        Self { participant }
    }
}

/// How many participants are still in the match.
#[derive(Clone, Copy, Debug, PartialEq, Eq, Structural)]
pub struct SurvivorCount(pub u8);

impl Default for SurvivorCount {
    fn default() -> (count: Self)
        ensures
            count.0 == 4,
    {
        Self(4)
    }
}

/// Whether the match is still running: combat freezes once at most one
/// participant survives, leaving the battlefield in its terminal state.
pub fn game_is_going(survivor_count: &SurvivorCount) -> (going: bool)
    ensures
        going == (survivor_count.0 > 1),
{
    survivor_count.0 > 1
}

/// The two ways a queued charge leaves the barrel.
#[derive(Clone, Copy, Debug, PartialEq, Eq, Structural)]
pub enum ShotType {
    /// The whole queued charge as one projectile.
    Charged,
    /// A stream of weaker pellets drained over several ticks.
    Multi,
}

/// One turret: its live charge, its pending-shot queue and the time it was
/// last hit.  Shots are pushed at the front on a trigger and popped from
/// the back when fired, so the queue drains oldest-first.
#[derive(Debug)]
pub struct Turret {
    pub charge: Charge,
    pub firing_queue: VecDeque<(ShotType, Charge)>,
    pub last_hit_timestamp: i64,
}

impl Default for Turret {
    /// A fresh turret: boosted charge, empty queue, and a last-hit stamp
    /// far enough in the past that the first shot fires boosted.
    fn default() -> (turret: Self)
        ensures
            turret.charge.value == BOOSTED_TURRET_CHARGE_VALUE,
            turret.charge.wf(),
            turret.firing_queue@ == Seq::<(ShotType, Charge)>::empty(),
            turret.last_hit_timestamp == -TURRET_BOOST_COOLDOWN_MILLIS,
    {
        Self {
            charge: Charge::default(),
            firing_queue: VecDeque::new(),
            last_hit_timestamp: -TURRET_BOOST_COOLDOWN_MILLIS,
        }
    }
}

/// One transient projectile.  `is_new` marks a bullet that has not yet
/// cleared its spawn zone and still carries the temporary new-bullet
/// collision layer.
#[derive(Clone, Copy, Debug, PartialEq, Eq, Structural)]
pub struct Bullet {
    pub owner: Participant,
    pub charge: Charge,
    pub is_new: bool,
    pub speed: u64,
}

/// One side of a collision pair.  The host physics engine reports contacts
/// by opaque entity handle; the shell resolves each handle to one of these
/// before the pair reaches the collision systems.
#[derive(Clone, Copy, Debug, PartialEq, Eq, Structural)]
pub enum CollisionBody {
    /// A grid tile, by index into the tile table.
    Tile { index: usize },
    /// A projectile, by index into the bullet table.
    Bullet { index: usize },
    /// A participant's turret.
    Turret { owner: Participant },
    /// The battlefield boundary wall.
    Boundary,
}

/// A contact-begin report between two bodies.
#[derive(Clone, Copy, Debug, PartialEq, Eq, Structural)]
pub struct CollisionPair {
    pub a: CollisionBody,
    pub b: CollisionBody,
}

/// The owner of tile `index` on a freshly built battlefield: each
/// participant starts with one full quadrant.
pub open spec fn spec_initial_owner(index: int) -> Participant {
    if index < QUADRANT_TILE_COUNT {
        Participant::A
    } else if index < 2 * QUADRANT_TILE_COUNT {
        Participant::B
    } else if index < 3 * QUADRANT_TILE_COUNT {
        Participant::C
    } else {
        Participant::D
    }
}

/// A freshly built turret slot.
pub open spec fn spec_initial_turret(slot: Option<Turret>) -> bool {
    &&& slot matches Some(turret)
    &&& turret.charge.value == BOOSTED_TURRET_CHARGE_VALUE
    &&& turret.charge.wf()
    &&& turret.firing_queue@ == Seq::<(ShotType, Charge)>::empty()
    &&& turret.last_hit_timestamp == -TURRET_BOOST_COOLDOWN_MILLIS
}

/// How many survivor flags are set.
pub open spec fn spec_survivor_count(survivors: ParticipantMap<bool>) -> int {
    (if survivors.a {
        1int
    } else {
        0int
    }) + (if survivors.b {
        1int
    } else {
        0int
    }) + (if survivors.c {
        1int
    } else {
        0int
    }) + (if survivors.d {
        1int
    } else {
        0int
    })
}

/// Two turret slots that hold the same observable state: same charge, same
/// pending shots, same last-hit stamp.
pub open spec fn spec_turret_obs_eq(x: Option<Turret>, y: Option<Turret>) -> bool {
    match (x, y) {
        (Some(tx), Some(ty)) => {
            &&& tx.charge == ty.charge
            &&& tx.firing_queue@ == ty.firing_queue@
            &&& tx.last_hit_timestamp == ty.last_hit_timestamp
        },
        (None, None) => true,
        _ => false,
    }
}

/// The charge a turret falls back to right after queueing a shot: the
/// boosted baseline if the cooldown since the last hit has fully elapsed,
/// else the bare minimum.
pub open spec fn spec_is_fire_reset(charge: Charge, now: i64, last_hit: i64) -> bool {
    if now - last_hit > TURRET_BOOST_COOLDOWN_MILLIS {
        &&& charge.value == BOOSTED_TURRET_CHARGE_VALUE
        &&& charge.level == spec_level(BOOSTED_TURRET_CHARGE_VALUE)
    } else {
        charge == (Charge { value: 1, level: 1 })
    }
}

/// The effect of a burst or charged trigger on a turret: the live charge,
/// tagged with the shot type, joins the front of the queue, and the live
/// charge resets by the cooldown rule.
pub open spec fn spec_shot_queued(pre: Turret, post: Turret, shot_type: ShotType, now: i64) -> bool {
    &&& post.firing_queue@ == seq![(shot_type, pre.charge)] + pre.firing_queue@
    &&& spec_is_fire_reset(post.charge, now, pre.last_hit_timestamp)
    &&& post.last_hit_timestamp == pre.last_hit_timestamp
}

/// The bullet and tile indices of a contact pair, in either order; `None`
/// for any other kind of pair.
pub open spec fn spec_bullet_tile_indices(pair: CollisionPair) -> Option<(int, int)> {
    match (pair.a, pair.b) {
        (CollisionBody::Bullet { index: bi }, CollisionBody::Tile { index: ti }) => Some(
            (bi as int, ti as int),
        ),
        (CollisionBody::Tile { index: ti }, CollisionBody::Bullet { index: bi }) => Some(
            (bi as int, ti as int),
        ),
        _ => None,
    }
}

/// Whether a bullet-tile contact captures the tile: both indices must be
/// live, the tile must not already belong to the bullet's participant, and
/// the bullet must have charge left to spend.
pub open spec fn spec_tile_capture_applies(w: Battlefield, bi: int, ti: int) -> bool {
    &&& 0 <= bi < w.bullets@.len()
    &&& w.bullets@[bi] matches Some(bullet)
    &&& 0 <= ti < w.tiles@.len()
    &&& bullet.owner != w.tiles@[ti]
    &&& bullet.charge.value > 0
}

/// Whether a contact pair leads to a tile capture in state `w`.
pub open spec fn spec_tile_capture_case(w: Battlefield, pair: CollisionPair) -> bool {
    match spec_bullet_tile_indices(pair) {
        Some((bi, ti)) => spec_tile_capture_applies(w, bi, ti),
        None => false,
    }
}

/// The bullet index and turret owner of a contact pair, in either order;
/// `None` for any other kind of pair.
pub open spec fn spec_bullet_turret_refs(pair: CollisionPair) -> Option<(int, Participant)> {
    match (pair.a, pair.b) {
        (CollisionBody::Bullet { index: bi }, CollisionBody::Turret { owner }) => Some(
            (bi as int, owner),
        ),
        (CollisionBody::Turret { owner }, CollisionBody::Bullet { index: bi }) => Some(
            (bi as int, owner),
        ),
        _ => None,
    }
}

/// Whether a bullet-turret contact exchanges damage: the bullet must be
/// live and the turret standing, and a bullet never damages its own turret.
pub open spec fn spec_turret_exchange_applies(w: Battlefield, bi: int, owner: Participant) -> bool {
    &&& 0 <= bi < w.bullets@.len()
    &&& w.bullets@[bi] matches Some(bullet)
    &&& w.turrets.spec_get(owner) is Some
    &&& bullet.owner != owner
}

/// Whether a contact pair leads to a damage exchange in state `w`: it must
/// name a bullet-turret pair that applies, and the game must still be
/// going.
pub open spec fn spec_turret_exchange_case(w: Battlefield, pair: CollisionPair) -> bool {
    &&& w.survivor_count.0 > 1
    &&& match spec_bullet_turret_refs(pair) {
        Some((bi, owner)) => spec_turret_exchange_applies(w, bi, owner),
        None => false,
    }
}

/// Whether a freshly fired bullet graduates out of the new-bullet layer:
/// its slot must be live and still new, and the host must report it clear
/// of the spawn corner with no active contact.
pub open spec fn spec_bullet_graduates(
    w: Battlefield,
    index: int,
    in_spawn_corner: bool,
    has_active_contact: bool,
) -> bool {
    &&& 0 <= index < w.bullets@.len()
    &&& w.bullets@[index] matches Some(bullet)
    &&& bullet.is_new
    &&& !in_spawn_corner
    &&& !has_active_contact
}

/// The value of one burst pellet: a fixed offset below the queued charge's
/// level, clamped to a floor of 1.
pub open spec fn spec_pellet_value(level: u64) -> u64 {
    if level > MULTI_SHOT_CHARGE_OFFSET {
        (level - MULTI_SHOT_CHARGE_OFFSET) as u64
    } else {
        1
    }
}

/// The projectile a queue entry produces: a charged shot carries the whole
/// queued charge at charged-shot speed, a burst shot carries one freshly
/// leveled pellet at burst speed.
pub open spec fn spec_fired_bullet(entry: (ShotType, Charge), owner: Participant) -> Bullet {
    match entry.0 {
        ShotType::Charged => Bullet {
            owner,
            charge: entry.1,
            is_new: true,
            speed: CHARGED_SHOT_BULLET_SPEED,
        },
        ShotType::Multi => Bullet {
            owner,
            charge: Charge {
                value: spec_pellet_value(entry.1.level),
                level: spec_level(spec_pellet_value(entry.1.level)) as u64,
            },
            is_new: true,
            speed: BURST_SHOT_BULLET_SPEED,
        },
    }
}

/// How one firing step transforms a non-empty queue: the back entry pops;
/// a burst entry whose value survives the pellet subtraction returns to
/// the back with the remainder and a recomputed level.
pub open spec fn spec_queue_fire_step(
    pre: Seq<(ShotType, Charge)>,
    post: Seq<(ShotType, Charge)>,
) -> bool
    recommends
        pre.len() > 0,
{
    match pre.last().0 {
        ShotType::Charged => post == pre.drop_last(),
        ShotType::Multi => {
            let pellet = spec_pellet_value(pre.last().1.level);
            if pre.last().1.value > pellet {
                &&& post.len() == pre.len()
                &&& post.drop_last() == pre.drop_last()
                &&& post.last().0 is Multi
                &&& post.last().1.value == pre.last().1.value - pellet
                &&& post.last().1.level == spec_level((pre.last().1.value - pellet) as u64)
            } else {
                post == pre.drop_last()
            }
        },
    }
}

/// How one firing pass transforms a turret slot: an absent turret or an
/// empty queue fires nothing; otherwise the queue takes one firing step
/// and the live charge and last-hit stamp stay put.
pub open spec fn spec_fire_slot_effect(pre: Option<Turret>, post: Option<Turret>) -> bool {
    match pre {
        None => post is None,
        Some(turret) => {
            if turret.firing_queue@.len() == 0 {
                post == pre
            } else {
                &&& post matches Some(fired)
                &&& fired.charge == turret.charge
                &&& fired.last_hit_timestamp == turret.last_hit_timestamp
                &&& spec_queue_fire_step(turret.firing_queue@, fired.firing_queue@)
            }
        },
    }
}

/// The bullets one turret slot contributes to a firing pass: one per slot
/// with a pending shot, none otherwise.
pub open spec fn spec_slot_shots(slot: Option<Turret>, owner: Participant) -> Seq<Option<Bullet>> {
    match slot {
        Some(turret) => {
            if turret.firing_queue@.len() > 0 {
                seq![Some(spec_fired_bullet(turret.firing_queue@.last(), owner))]
            } else {
                Seq::<Option<Bullet>>::empty()
            }
        },
        None => Seq::<Option<Bullet>>::empty(),
    }
}

/// How the level-recompute pass transforms a turret slot: a live value
/// gets a fresh level; a zero value is left in place for the elimination
/// pass — a turret is never despawned here.
pub open spec fn spec_level_slot_effect(pre: Option<Turret>, post: Option<Turret>) -> bool {
    match pre {
        None => post == pre,
        Some(turret) => {
            if turret.charge.value > 0 {
                &&& post matches Some(leveled)
                &&& leveled.charge.value == turret.charge.value
                &&& leveled.charge.level == spec_level(turret.charge.value)
                &&& leveled.firing_queue == turret.firing_queue
                &&& leveled.last_hit_timestamp == turret.last_hit_timestamp
            } else {
                post == pre
            }
        },
    }
}

/// Whether a turret slot holds a turret whose charge has hit zero.
pub open spec fn spec_zeroed(slot: Option<Turret>) -> bool {
    slot matches Some(turret) && turret.charge.value == 0
}

/// The elimination events one level-recompute pass reports: one per
/// standing turret whose charge has hit zero, in participant order.
pub open spec fn spec_elimination_events(w: Battlefield) -> Seq<EliminationEvent> {
    (if spec_zeroed(w.turrets.a) {
        seq![EliminationEvent { participant: Participant::A }]
    } else {
        Seq::<EliminationEvent>::empty()
    }) + (if spec_zeroed(w.turrets.b) {
        seq![EliminationEvent { participant: Participant::B }]
    } else {
        Seq::<EliminationEvent>::empty()
    }) + (if spec_zeroed(w.turrets.c) {
        seq![EliminationEvent { participant: Participant::C }]
    } else {
        Seq::<EliminationEvent>::empty()
    }) + (if spec_zeroed(w.turrets.d) {
        seq![EliminationEvent { participant: Participant::D }]
    } else {
        Seq::<EliminationEvent>::empty()
    })
}

/// How the level-recompute pass transforms a bullet slot: a live value
/// gets a fresh level, and a zero-charge bullet despawns — bullets, unlike
/// turrets, never report an elimination.
pub open spec fn spec_leveled_bullet(slot: Option<Bullet>) -> Option<Bullet> {
    match slot {
        Some(bullet) => {
            if bullet.charge.value > 0 {
                Some(
                    Bullet {
                        charge: Charge {
                            value: bullet.charge.value,
                            level: spec_level(bullet.charge.value) as u64,
                        },
                        ..bullet
                    },
                )
            } else {
                None
            }
        },
        None => None,
    }
}

/// What elimination leaves of a bullet slot: the eliminated participant's
/// bullets despawn with the rest of its entities; everyone else's remain.
pub open spec fn spec_surviving_bullet(
    slot: Option<Bullet>,
    eliminated: Participant,
) -> Option<Bullet> {
    match slot {
        Some(bullet) => {
            if bullet.owner == eliminated {
                None
            } else {
                Some(bullet)
            }
        },
        None => None,
    }
}

/// How one bullet-tile contact report transforms the battlefield: a
/// capture flips the tile and spends one unit of charge; any other report
/// leaves the state untouched.
pub open spec fn spec_tile_collision_rel(
    pre: Battlefield,
    post: Battlefield,
    pair: CollisionPair,
) -> bool {
    if spec_tile_capture_case(pre, pair) {
        match spec_bullet_tile_indices(pair) {
            Some((bi, ti)) => match pre.bullets@[bi] {
                Some(bullet) => {
                    &&& post.tiles@ == pre.tiles@.update(ti, bullet.owner)
                    &&& post.bullets@ == pre.bullets@.update(
                        bi,
                        Some(
                            Bullet {
                                charge: Charge {
                                    value: (bullet.charge.value - 1) as u64,
                                    level: bullet.charge.level,
                                },
                                ..bullet
                            },
                        ),
                    )
                    &&& post.turrets == pre.turrets
                    &&& post.survivors == pre.survivors
                    &&& post.survivor_count == pre.survivor_count
                },
                None => false,
            },
            None => false,
        }
    } else {
        post == pre
    }
}

/// How one bullet-turret contact report transforms the battlefield: while
/// the game is going, an exchange between enemies costs both charges the
/// smaller of the two values and stamps the turret's last hit; any other
/// report, or a finished game, leaves the state untouched.
pub open spec fn spec_turret_collision_rel(
    pre: Battlefield,
    post: Battlefield,
    pair: CollisionPair,
    now: i64,
) -> bool {
    if spec_turret_exchange_case(pre, pair) {
        match spec_bullet_turret_refs(pair) {
            Some((bi, owner)) => match (pre.bullets@[bi], pre.turrets.spec_get(owner)) {
                (Some(bullet), Some(turret)) => {
                    let shared = if bullet.charge.value < turret.charge.value {
                        bullet.charge.value
                    } else {
                        turret.charge.value
                    };
                    &&& post.bullets@ == pre.bullets@.update(
                        bi,
                        Some(
                            Bullet {
                                charge: Charge {
                                    value: (bullet.charge.value - shared) as u64,
                                    level: bullet.charge.level,
                                },
                                ..bullet
                            },
                        ),
                    )
                    &&& post.turrets == pre.turrets.spec_set(
                        owner,
                        Some(
                            Turret {
                                charge: Charge {
                                    value: (turret.charge.value - shared) as u64,
                                    level: turret.charge.level,
                                },
                                firing_queue: turret.firing_queue,
                                last_hit_timestamp: now,
                            },
                        ),
                    )
                    &&& post.tiles == pre.tiles
                    &&& post.survivors == pre.survivors
                    &&& post.survivor_count == pre.survivor_count
                },
                _ => false,
            },
            None => false,
        }
    } else {
        post == pre
    }
}

/// How one trigger event transforms the battlefield: a multiply scales the
/// live charge in place, a shot trigger queues the live charge and resets
/// it by the cooldown rule, and a stale event drops silently.
pub open spec fn spec_trigger_rel(
    pre: Battlefield,
    post: Battlefield,
    event: TriggerEvent,
    now: i64,
) -> bool {
    match pre.turrets.spec_get(event.participant) {
        None => post == pre,
        Some(turret) => {
            &&& post.tiles == pre.tiles
            &&& post.bullets == pre.bullets
            &&& post.survivors == pre.survivors
            &&& post.survivor_count == pre.survivor_count
            &&& spec_unchanged_except(pre.turrets, post.turrets, event.participant)
            &&& match post.turrets.spec_get(event.participant) {
                Some(after) => match event.trigger_type {
                    TriggerType::Multiply(factor) => {
                        &&& after.charge.value == spec_saturating_mul(
                            turret.charge.value,
                            factor as u64,
                        )
                        &&& after.charge.level == turret.charge.level
                        &&& after.firing_queue@ == turret.firing_queue@
                        &&& after.last_hit_timestamp == turret.last_hit_timestamp
                    },
                    TriggerType::BurstShot => spec_shot_queued(
                        turret,
                        after,
                        ShotType::Multi,
                        now,
                    ),
                    TriggerType::ChargedShot => spec_shot_queued(
                        turret,
                        after,
                        ShotType::Charged,
                        now,
                    ),
                },
                None => false,
            }
        },
    }
}

/// The drain measure of a firing queue: the sum of the queued values, plus
/// one per entry.
pub open spec fn spec_queue_measure(q: Seq<(ShotType, Charge)>) -> int
    decreases q.len(),
{
    if q.len() == 0 {
        0
    } else {
        spec_queue_measure(q.drop_last()) + q.last().1.value + 1
    }
}

proof fn lemma_queue_measure_nonneg(q: Seq<(ShotType, Charge)>)
    ensures
        spec_queue_measure(q) >= 0,
    decreases q.len(),
{
    if q.len() > 0 {
        lemma_queue_measure_nonneg(q.drop_last());
    }
}

/// Law: draining a queued burst terminates.  Every firing step strictly
/// shrinks the queue's drain measure — each tick either removes the back
/// entry or replaces it with a strictly smaller remainder, because the
/// pellet value is at least 1 — so a queue empties in a finite, bounded
/// number of ticks and never loops indefinitely.
pub proof fn lemma_burst_drain_terminates(
    pre: Seq<(ShotType, Charge)>,
    post: Seq<(ShotType, Charge)>,
)
    requires
        pre.len() > 0,
        spec_queue_fire_step(pre, post),
    ensures
        0 <= spec_queue_measure(post) < spec_queue_measure(pre),
{
    lemma_queue_measure_nonneg(post);
    lemma_queue_measure_nonneg(pre.drop_last());
    match pre.last().0 {
        ShotType::Charged => {},
        ShotType::Multi => {
            let pellet = spec_pellet_value(pre.last().1.level);
            if pre.last().1.value > pellet {
                assert(post.len() > 0);
                assert(spec_queue_measure(post) == spec_queue_measure(post.drop_last())
                    + post.last().1.value + 1);
            }
        },
    }
}

proof fn lemma_concat_contains<A>(a: Seq<A>, b: Seq<A>, x: A)
    ensures
        (a + b).contains(x) <==> (a.contains(x) || b.contains(x)),
{
    if a.contains(x) {
        let i = choose|i: int| 0 <= i < a.len() && a[i] == x;
        assert((a + b)[i] == x);
    }
    if b.contains(x) {
        let i = choose|i: int| 0 <= i < b.len() && b[i] == x;
        assert((a + b)[a.len() + i] == x);
    }
    if (a + b).contains(x) {
        let i = choose|i: int| 0 <= i < (a + b).len() && (a + b)[i] == x;
        if i < a.len() {
            assert(a[i] == x);
        } else {
            assert(b[i - a.len()] == x);
        }
    }
}

proof fn lemma_singleton_contains<A>(y: A, x: A)
    ensures
        seq![y].contains(x) <==> x == y,
{
    if seq![y].contains(x) {
        let i = choose|i: int| 0 <= i < seq![y].len() && seq![y][i] == x;
        assert(i == 0);
    }
    if x == y {
        assert(seq![y][0] == x);
    }
}

proof fn lemma_events_contains_one(w: Battlefield, x: EliminationEvent)
    ensures
        spec_elimination_events(w).contains(x) <==> ((spec_zeroed(w.turrets.a) && x
            == EliminationEvent { participant: Participant::A }) || (spec_zeroed(w.turrets.b) && x
            == EliminationEvent { participant: Participant::B }) || (spec_zeroed(w.turrets.c) && x
            == EliminationEvent { participant: Participant::C }) || (spec_zeroed(w.turrets.d) && x
            == EliminationEvent { participant: Participant::D })),
{
    let sa = if spec_zeroed(w.turrets.a) {
        seq![EliminationEvent { participant: Participant::A }]
    } else {
        Seq::<EliminationEvent>::empty()
    };
    let sb = if spec_zeroed(w.turrets.b) {
        seq![EliminationEvent { participant: Participant::B }]
    } else {
        Seq::<EliminationEvent>::empty()
    };
    let sc = if spec_zeroed(w.turrets.c) {
        seq![EliminationEvent { participant: Participant::C }]
    } else {
        Seq::<EliminationEvent>::empty()
    };
    let sd = if spec_zeroed(w.turrets.d) {
        seq![EliminationEvent { participant: Participant::D }]
    } else {
        Seq::<EliminationEvent>::empty()
    };
    lemma_concat_contains(sa + sb + sc, sd, x);
    lemma_concat_contains(sa + sb, sc, x);
    lemma_concat_contains(sa, sb, x);
    lemma_singleton_contains(EliminationEvent { participant: Participant::A }, x);
    lemma_singleton_contains(EliminationEvent { participant: Participant::B }, x);
    lemma_singleton_contains(EliminationEvent { participant: Participant::C }, x);
    lemma_singleton_contains(EliminationEvent { participant: Participant::D }, x);
}

/// Law: elimination is exclusive to turrets reaching zero.  The
/// level-recompute pass reports an elimination for a participant exactly
/// when that participant's turret stands at zero charge; a bullet reaching
/// zero despawns silently and never appears here.
pub proof fn lemma_elimination_exclusive(w: Battlefield, participant: Participant)
    ensures
        spec_elimination_events(w).contains(EliminationEvent { participant })
            <==> spec_zeroed(w.turrets.spec_get(participant)),
{
    lemma_events_contains_one(w, EliminationEvent { participant });
}

proof fn lemma_events_all_zeroed(w: Battlefield)
    ensures
        forall|i: int|
            0 <= i < spec_elimination_events(w).len() ==> spec_zeroed(
                w.turrets.spec_get(#[trigger] spec_elimination_events(w)[i].participant),
            ),
{
    let sa = if spec_zeroed(w.turrets.a) {
        seq![EliminationEvent { participant: Participant::A }]
    } else {
        Seq::<EliminationEvent>::empty()
    };
    let sb = if spec_zeroed(w.turrets.b) {
        seq![EliminationEvent { participant: Participant::B }]
    } else {
        Seq::<EliminationEvent>::empty()
    };
    let sc = if spec_zeroed(w.turrets.c) {
        seq![EliminationEvent { participant: Participant::C }]
    } else {
        Seq::<EliminationEvent>::empty()
    };
    let sd = if spec_zeroed(w.turrets.d) {
        seq![EliminationEvent { participant: Participant::D }]
    } else {
        Seq::<EliminationEvent>::empty()
    };
    let all = sa + sb + sc + sd;
    assert forall|i: int| 0 <= i < all.len() implies spec_zeroed(
        w.turrets.spec_get(all[i].participant),
    ) by {
        if i < sa.len() {
            assert(all[i] == sa[i]);
        } else if i < sa.len() + sb.len() {
            assert(all[i] == sb[i - sa.len()]);
        } else if i < sa.len() + sb.len() + sc.len() {
            assert(all[i] == sc[i - sa.len() - sb.len()]);
        } else {
            assert(all[i] == sd[i - sa.len() - sb.len() - sc.len()]);
        }
    }
}

/// How the level-recompute and zero-charge pass transforms the whole
/// battlefield.
pub open spec fn spec_level_phase_rel(pre: Battlefield, post: Battlefield) -> bool {
    &&& spec_level_slot_effect(pre.turrets.a, post.turrets.a)
    &&& spec_level_slot_effect(pre.turrets.b, post.turrets.b)
    &&& spec_level_slot_effect(pre.turrets.c, post.turrets.c)
    &&& spec_level_slot_effect(pre.turrets.d, post.turrets.d)
    &&& post.bullets@.len() == pre.bullets@.len()
    &&& forall|i: int|
        0 <= i < pre.bullets@.len() ==> post.bullets@[i] == spec_leveled_bullet(pre.bullets@[i])
    &&& post.tiles == pre.tiles
    &&& post.survivors == pre.survivors
    &&& post.survivor_count == pre.survivor_count
}

/// What the elimination pass leaves of a bullet slot: bullets owned by any
/// participant whose turret stands at zero despawn with their owner.
pub open spec fn spec_elim_filtered_bullet(
    pre: Battlefield,
    slot: Option<Bullet>,
) -> Option<Bullet> {
    match slot {
        Some(bullet) => {
            if spec_zeroed(pre.turrets.spec_get(bullet.owner)) {
                None
            } else {
                Some(bullet)
            }
        },
        None => None,
    }
}

/// How the elimination pass transforms the whole battlefield: every
/// participant whose turret stands at zero loses its turret, its survivor
/// flag, and its bullets in flight; the survivor count drops accordingly
/// and tiles keep their owners.
pub open spec fn spec_elim_pass_rel(pre: Battlefield, post: Battlefield) -> bool {
    let za = spec_zeroed(pre.turrets.a);
    let zb = spec_zeroed(pre.turrets.b);
    let zc = spec_zeroed(pre.turrets.c);
    let zd = spec_zeroed(pre.turrets.d);
    &&& post.turrets.a == (if za {
        Option::<Turret>::None
    } else {
        pre.turrets.a
    })
    &&& post.turrets.b == (if zb {
        Option::<Turret>::None
    } else {
        pre.turrets.b
    })
    &&& post.turrets.c == (if zc {
        Option::<Turret>::None
    } else {
        pre.turrets.c
    })
    &&& post.turrets.d == (if zd {
        Option::<Turret>::None
    } else {
        pre.turrets.d
    })
    &&& post.survivors.a == (pre.survivors.a && !za)
    &&& post.survivors.b == (pre.survivors.b && !zb)
    &&& post.survivors.c == (pre.survivors.c && !zc)
    &&& post.survivors.d == (pre.survivors.d && !zd)
    &&& post.survivor_count.0 == pre.survivor_count.0 - (if za {
        1int
    } else {
        0int
    }) - (if zb {
        1int
    } else {
        0int
    }) - (if zc {
        1int
    } else {
        0int
    }) - (if zd {
        1int
    } else {
        0int
    })
    &&& post.tiles == pre.tiles
    &&& post.bullets@.len() == pre.bullets@.len()
    &&& forall|i: int|
        0 <= i < pre.bullets@.len() ==> post.bullets@[i] == spec_elim_filtered_bullet(
            pre,
            pre.bullets@[i],
        )
}

/// How the firing pass transforms the whole battlefield: nothing once the
/// game is over; otherwise each turret takes one firing step and the
/// spawned bullets join the table in participant order.
pub open spec fn spec_fire_rel(pre: Battlefield, post: Battlefield) -> bool {
    if pre.survivor_count.0 <= 1 {
        post == pre
    } else {
        &&& spec_fire_slot_effect(pre.turrets.a, post.turrets.a)
        &&& spec_fire_slot_effect(pre.turrets.b, post.turrets.b)
        &&& spec_fire_slot_effect(pre.turrets.c, post.turrets.c)
        &&& spec_fire_slot_effect(pre.turrets.d, post.turrets.d)
        &&& post.bullets@ == pre.bullets@ + spec_slot_shots(pre.turrets.a, Participant::A)
            + spec_slot_shots(pre.turrets.b, Participant::B) + spec_slot_shots(
            pre.turrets.c,
            Participant::C,
        ) + spec_slot_shots(pre.turrets.d, Participant::D)
        &&& post.tiles == pre.tiles
        &&& post.survivors == pre.survivors
        &&& post.survivor_count == pre.survivor_count
    }
}

/// Holds when `post` arises from `pre` by applying the step relation
/// `rel` once per event, in order.
pub open spec fn spec_chain<E>(
    rel: spec_fn(Battlefield, Battlefield, E) -> bool,
    pre: Battlefield,
    post: Battlefield,
    events: Seq<E>,
) -> bool
    decreases events.len(),
{
    if events.len() == 0 {
        post == pre
    } else {
        exists|mid: Battlefield|
            #[trigger] rel(pre, mid, events[0]) && spec_chain(rel, mid, post, events.drop_first())
    }
}

proof fn lemma_chain_snoc<E>(
    rel: spec_fn(Battlefield, Battlefield, E) -> bool,
    pre: Battlefield,
    mid: Battlefield,
    post: Battlefield,
    events: Seq<E>,
    event: E,
)
    requires
        spec_chain(rel, pre, mid, events),
        rel(mid, post, event),
    ensures
        spec_chain(rel, pre, post, events.push(event)),
    decreases events.len(),
{
    if events.len() == 0 {
        assert(events.push(event).drop_first() =~= Seq::<E>::empty());
        assert(events.push(event)[0] == event);
        assert(rel(pre, post, events.push(event)[0]) && spec_chain(
            rel,
            post,
            post,
            events.push(event).drop_first(),
        ));
    } else {
        let step = choose|step: Battlefield|
            #[trigger] rel(pre, step, events[0]) && spec_chain(rel, step, mid, events.drop_first());
        lemma_chain_snoc(rel, step, mid, post, events.drop_first(), event);
        assert(events.push(event).drop_first() =~= events.drop_first().push(event));
        assert(events.push(event)[0] == events[0]);
        assert(rel(pre, step, events.push(event)[0]) && spec_chain(
            rel,
            step,
            post,
            events.push(event).drop_first(),
        ));
    }
}

/// The tile-collision step relation, as a value for [`spec_chain`].
pub open spec fn spec_tile_rel_fn() -> spec_fn(Battlefield, Battlefield, CollisionPair) -> bool {
    |pre: Battlefield, post: Battlefield, pair: CollisionPair|
        spec_tile_collision_rel(pre, post, pair)
}

/// The turret-collision step relation at time `now`.
pub open spec fn spec_turret_rel_fn(now: i64) -> spec_fn(
    Battlefield,
    Battlefield,
    CollisionPair,
) -> bool {
    |pre: Battlefield, post: Battlefield, pair: CollisionPair|
        spec_turret_collision_rel(pre, post, pair, now)
}

/// The trigger step relation at time `now`.
pub open spec fn spec_trigger_rel_fn(now: i64) -> spec_fn(
    Battlefield,
    Battlefield,
    TriggerEvent,
) -> bool {
    |pre: Battlefield, post: Battlefield, event: TriggerEvent|
        spec_trigger_rel(pre, post, event, now)
}

/// One whole non-restart tick: the six phases chained in their fixed
/// order — tile collisions, turret collisions, triggers, the
/// level-recompute and zero-charge pass (whose zero turrets are exactly
/// the reported eliminations), the elimination pass, and the firing pass.
pub open spec fn spec_tick_rel(
    pre: Battlefield,
    post: Battlefield,
    now: i64,
    triggers: Seq<TriggerEvent>,
    collisions: Seq<CollisionPair>,
    eliminations: Seq<EliminationEvent>,
) -> bool {
    exists|mid: (Battlefield, Battlefield, Battlefield, Battlefield, Battlefield)|
        {
            &&& #[trigger] spec_chain(spec_tile_rel_fn(), pre, mid.0, collisions)
            &&& spec_chain(spec_turret_rel_fn(now), mid.0, mid.1, collisions)
            &&& spec_chain(spec_trigger_rel_fn(now), mid.1, mid.2, triggers)
            &&& spec_level_phase_rel(mid.2, mid.3)
            &&& eliminations == spec_elimination_events(mid.2)
            &&& spec_elim_pass_rel(mid.3, mid.4)
            &&& spec_fire_rel(mid.4, post)
        }
}

/// The state of a freshly built or freshly restarted battlefield.
pub open spec fn spec_is_initial(w: Battlefield) -> bool {
    &&& w.tiles@.len() == TILE_TOTAL
    &&& forall|i: int| 0 <= i < TILE_TOTAL ==> w.tiles@[i] == spec_initial_owner(i)
    &&& spec_initial_turret(w.turrets.a)
    &&& spec_initial_turret(w.turrets.b)
    &&& spec_initial_turret(w.turrets.c)
    &&& spec_initial_turret(w.turrets.d)
    &&& w.bullets@.len() == 0
    &&& w.survivors.a && w.survivors.b && w.survivors.c && w.survivors.d
    &&& w.survivor_count.0 == 4
}

/// The whole battlefield state, as explicit data tables.  A despawned
/// bullet leaves a `None` slot behind so that later collision reports
/// naming its index fall through as stale no-ops.
#[derive(Debug)]
pub struct Battlefield {
    /// The owner of each tile; the display color and collision filter of a
    /// tile derive from its owner.
    pub tiles: Vec<Participant>,
    /// One turret per surviving participant.
    pub turrets: ParticipantMap<Option<Turret>>,
    /// Projectiles in flight, with stable indices.
    pub bullets: Vec<Option<Bullet>>,
    /// Which participants are still in the match.
    pub survivors: ParticipantMap<bool>,
    pub survivor_count: SurvivorCount,
}

impl Battlefield {
    /// The structural invariant: the tile table is complete, the survivor
    /// count matches the flags, and a participant has a turret exactly
    /// while it survives.
    pub open spec fn wf(self) -> bool {
        &&& self.tiles@.len() == TILE_TOTAL
        &&& self.survivor_count.0 == spec_survivor_count(self.survivors)
        &&& (self.turrets.a is Some <==> self.survivors.a)
        &&& (self.turrets.b is Some <==> self.survivors.b)
        &&& (self.turrets.c is Some <==> self.survivors.c)
        &&& (self.turrets.d is Some <==> self.survivors.d)
    }

    /// Builds the battlefield: the quadrant-mirrored tile grid, the four
    /// turret assemblies and the survivor bookkeeping.
    #[verifier::loop_isolation(false)]
    pub fn new() -> (battlefield: Self)
        ensures
            battlefield.wf(),
            spec_is_initial(battlefield),
    {
        let mut tiles: Vec<Participant> = Vec::new();
        let mut k: usize = 0;
        while k < TILE_TOTAL
            invariant
                k <= TILE_TOTAL,
                tiles@.len() == k,
                forall|i: int| 0 <= i < k ==> tiles@[i] == spec_initial_owner(i),
            decreases TILE_TOTAL - k,
        {
            let owner = if k < QUADRANT_TILE_COUNT {
                Participant::A
            } else if k < 2 * QUADRANT_TILE_COUNT {
                Participant::B
            } else if k < 3 * QUADRANT_TILE_COUNT {
                Participant::C
            } else {
                Participant::D
            };
            tiles.push(owner);
            k = k + 1;
        }
        Battlefield {
            tiles,
            turrets: ParticipantMap::new(
                Some(Turret::default()),
                Some(Turret::default()),
                Some(Turret::default()),
                Some(Turret::default()),
            ),
            bullets: Vec::new(),
            survivors: ParticipantMap::splat(true),
            survivor_count: SurvivorCount(4),
        }
    }

    /// A mutable view of one participant's turret slot.
    fn turret_mut(&mut self, participant: Participant) -> (slot: &mut Option<Turret>)
        ensures
            *slot == old(self).turrets.spec_get(participant),
            final(self).turrets == old(self).turrets.spec_set(participant, *final(slot)),
            final(self).tiles == old(self).tiles,
            final(self).bullets == old(self).bullets,
            final(self).survivors == old(self).survivors,
            final(self).survivor_count == old(self).survivor_count,
    {
        match participant {
            Participant::A => &mut self.turrets.a,
            Participant::B => &mut self.turrets.b,
            Participant::C => &mut self.turrets.c,
            Participant::D => &mut self.turrets.d,
        }
    }

    /// Applies one trigger event from the panel to its participant's
    /// turret.  A multiply trigger scales the live charge in place; a shot
    /// trigger moves the live charge into the firing queue and resets it —
    /// boosted only if the turret has not been hit within the cooldown
    /// window.  An event for an eliminated participant is a stale event and
    /// drops silently.
    pub fn handle_trigger_event(&mut self, event: &TriggerEvent, now: i64)
        ensures
            spec_trigger_rel(*old(self), *final(self), *event, now),
    {
        let slot = self.turret_mut(event.participant);
        match slot {
            None => {},
            Some(turret) => {
                match event.trigger_type {
                    TriggerType::Multiply(factor) => {
                        turret.charge.multiply(factor);
                    },
                    TriggerType::BurstShot => {
                        let queued = turret.charge;
                        turret.firing_queue.push_front((ShotType::Multi, queued));
                        if (now as i128) - (turret.last_hit_timestamp as i128)
                            > (TURRET_BOOST_COOLDOWN_MILLIS as i128) {
                            turret.charge.reset_boosted();
                        } else {
                            turret.charge.reset();
                        }
                    },
                    TriggerType::ChargedShot => {
                        let queued = turret.charge;
                        turret.firing_queue.push_front((ShotType::Charged, queued));
                        if (now as i128) - (turret.last_hit_timestamp as i128)
                            > (TURRET_BOOST_COOLDOWN_MILLIS as i128) {
                            turret.charge.reset_boosted();
                        } else {
                            turret.charge.reset();
                        }
                    },
                }
            },
        }
    }

    /// Resolves one contact-begin report between a bullet and a tile.  A
    /// live bullet touching a tile of another participant flips the tile to
    /// the bullet's side — the tile's color and collision filter derive
    /// from the new owner — and spends exactly one unit of charge.  A
    /// zero-charge bullet captures nothing, and a report that names no
    /// bullet-tile pair, or a stale bullet slot, is a no-op.
    pub fn handle_bullet_tile_collision(&mut self, pair: &CollisionPair)
        ensures
            spec_tile_collision_rel(*old(self), *final(self), *pair),
    {
        let (bi, ti): (usize, usize) = match (pair.a, pair.b) {
            (CollisionBody::Bullet { index: bi }, CollisionBody::Tile { index: ti }) => (bi, ti),
            (CollisionBody::Tile { index: ti }, CollisionBody::Bullet { index: bi }) => (bi, ti),
            _ => {
                return;
            },
        };
        if bi >= self.bullets.len() {
            return;
        }
        let bullet = match self.bullets[bi] {
            Some(bullet) => bullet,
            None => {
                return;
            },
        };
        if ti >= self.tiles.len() {
            return;
        }
        if bullet.owner == self.tiles[ti] {
            return;
        }
        if bullet.charge.value == 0 {
            return;
        }
        self.tiles[ti] = bullet.owner;
        self.bullets[bi] = Some(
            Bullet {
                charge: Charge { value: bullet.charge.value - 1, level: bullet.charge.level },
                ..bullet
            },
        );
    }

    /// Resolves one contact-begin report between a bullet and a turret,
    /// only while the game is still going.  The two charges engage in a
    /// symmetric exchange: both lose the smaller of the two values.  The
    /// turret's last-hit stamp moves to `now` regardless of the damage
    /// outcome.  A bullet touching its own turret, a stale bullet slot or a
    /// report that names no bullet-turret pair is a no-op.
    pub fn handle_bullet_turret_collision(&mut self, pair: &CollisionPair, now: i64)
        ensures
            spec_turret_collision_rel(*old(self), *final(self), *pair, now),
    {
        if !game_is_going(&self.survivor_count) {
            return;
        }
        let (bi, owner): (usize, Participant) = match (pair.a, pair.b) {
            (CollisionBody::Bullet { index: bi }, CollisionBody::Turret { owner }) => (bi, owner),
            (CollisionBody::Turret { owner }, CollisionBody::Bullet { index: bi }) => (bi, owner),
            _ => {
                return;
            },
        };
        if bi >= self.bullets.len() {
            return;
        }
        let bullet = match self.bullets[bi] {
            Some(bullet) => bullet,
            None => {
                return;
            },
        };
        if bullet.owner == owner {
            return;
        }
        let slot = self.turret_mut(owner);
        let shared: u64;
        match slot {
            None => {
                return;
            },
            Some(turret) => {
                shared = if bullet.charge.value < turret.charge.value {
                    bullet.charge.value
                } else {
                    turret.charge.value
                };
                turret.charge.value = turret.charge.value - shared;
                turret.last_hit_timestamp = now;
            },
        }
        self.bullets[bi] = Some(
            Bullet {
                charge: Charge { value: bullet.charge.value - shared, level: bullet.charge.level },
                ..bullet
            },
        );
    }

    /// Graduates a freshly fired bullet out of the temporary new-bullet
    /// collision layer once the host physics engine reports that it has
    /// left the spawn corner and touches nothing: its filters then derive
    /// from the settled-bullet masks.  Any other combination, a stale slot
    /// or an out-of-range index leaves the bullet as it is.  The shell
    /// runs this each fixed step, before the firing pass, with its own
    /// position and contact queries as the two reports.
    pub fn update_bullets_solver_groups(
        &mut self,
        index: usize,
        in_spawn_corner: bool,
        has_active_contact: bool,
    )
        ensures
            spec_bullet_graduates(*old(self), index as int, in_spawn_corner, has_active_contact)
                ==> {
                &&& old(self).bullets@[index as int] matches Some(bullet)
                &&& final(self).bullets@ == old(self).bullets@.update(
                    index as int,
                    Some(Bullet { is_new: false, ..bullet }),
                )
                &&& final(self).tiles == old(self).tiles
                &&& final(self).turrets == old(self).turrets
                &&& final(self).survivors == old(self).survivors
                &&& final(self).survivor_count == old(self).survivor_count
            },
            !spec_bullet_graduates(*old(self), index as int, in_spawn_corner, has_active_contact)
                ==> *final(self) == *old(self),
    {
        if in_spawn_corner || has_active_contact {
            return;
        }
        if index >= self.bullets.len() {
            return;
        }
        let bullet = match self.bullets[index] {
            Some(bullet) => bullet,
            None => {
                return;
            },
        };
        if !bullet.is_new {
            return;
        }
        self.bullets[index] = Some(Bullet { is_new: false, ..bullet });
    }

    /// Pops and fires one pending shot from a turret slot, handing back
    /// the spawned projectile.
    fn fire_turret(slot: &mut Option<Turret>, owner: Participant) -> (shot: Option<Bullet>)
        ensures
            spec_fire_slot_effect(*old(slot), *final(slot)),
            match shot {
                Some(bullet) => *old(slot) matches Some(turret) && turret.firing_queue@.len() > 0
                    && bullet == spec_fired_bullet(turret.firing_queue@.last(), owner),
                None => *old(slot) is None || (*old(slot) matches Some(turret)
                    && turret.firing_queue@.len() == 0),
            },
    {
        let turret = match slot {
            Some(turret) => turret,
            None => {
                return None;
            },
        };
        if turret.firing_queue.len() == 0 {
            return None;
        }
        let ghost pre_queue = turret.firing_queue@;
        let entry = match turret.firing_queue.pop_back() {
            Some(entry) => entry,
            None => {
                return None;
            },
        };
        proof {
            assert(turret.firing_queue@ =~= pre_queue.drop_last());
        }
        let (shot_type, queued) = entry;
        match shot_type {
            ShotType::Charged => Some(
                Bullet { owner, charge: queued, is_new: true, speed: CHARGED_SHOT_BULLET_SPEED },
            ),
            ShotType::Multi => {
                let pellet_value = if queued.level > MULTI_SHOT_CHARGE_OFFSET {
                    queued.level - MULTI_SHOT_CHARGE_OFFSET
                } else {
                    1
                };
                let pellet = Charge::from_value(pellet_value);
                if queued.value > pellet_value {
                    let remainder = Charge::from_value(queued.value - pellet_value);
                    turret.firing_queue.push_back((ShotType::Multi, remainder));
                    proof {
                        assert(turret.firing_queue@.drop_last() =~= pre_queue.drop_last());
                    }
                }
                proof {
                    crate::charge::lemma_level_le_65(pellet_value);
                }
                Some(Bullet { owner, charge: pellet, is_new: true, speed: BURST_SHOT_BULLET_SPEED })
            },
        }
    }

    /// Runs one fixed-step firing pass, only while the game is still
    /// going: each turret with a pending shot fires once, and the spawned
    /// projectiles join the bullet table in participant order.  A charged
    /// entry leaves whole; a burst entry emits one pellet and returns its
    /// remainder to the queue, draining over several ticks.
    pub fn fire_shots(&mut self)
        ensures
            spec_fire_rel(*old(self), *final(self)),
    {
        if !game_is_going(&self.survivor_count) {
            return;
        }
        let shot_a = Self::fire_turret(&mut self.turrets.a, Participant::A);
        if let Some(bullet) = shot_a {
            self.bullets.push(Some(bullet));
        }
        let shot_b = Self::fire_turret(&mut self.turrets.b, Participant::B);
        if let Some(bullet) = shot_b {
            self.bullets.push(Some(bullet));
        }
        let shot_c = Self::fire_turret(&mut self.turrets.c, Participant::C);
        if let Some(bullet) = shot_c {
            self.bullets.push(Some(bullet));
        }
        let shot_d = Self::fire_turret(&mut self.turrets.d, Participant::D);
        if let Some(bullet) = shot_d {
            self.bullets.push(Some(bullet));
        }
        proof {
            assert(self.bullets@ =~= old(self).bullets@ + spec_slot_shots(
                old(self).turrets.a,
                Participant::A,
            ) + spec_slot_shots(old(self).turrets.b, Participant::B) + spec_slot_shots(
                old(self).turrets.c,
                Participant::C,
            ) + spec_slot_shots(old(self).turrets.d, Participant::D));
        }
    }

    /// Recomputes one turret slot's level, or reports its elimination when
    /// the charge has hit zero.
    fn level_turret(
        slot: &mut Option<Turret>,
        owner: Participant,
        events: &mut Vec<EliminationEvent>,
    )
        ensures
            spec_level_slot_effect(*old(slot), *final(slot)),
            spec_zeroed(*old(slot)) ==> final(events)@ == old(events)@.push(
                EliminationEvent { participant: owner },
            ),
            !spec_zeroed(*old(slot)) ==> final(events)@ == old(events)@,
    {
        match slot {
            Some(turret) => {
                if turret.charge.value > 0 {
                    turret.charge.update_level();
                } else {
                    events.push(EliminationEvent::new(owner));
                }
            },
            None => {},
        }
    }

    /// The generic zero-charge resolution and level-recompute pass, run
    /// after every charge mutation has settled.  Every live charge gets a
    /// fresh level; a zero-charge bullet despawns outright, while a
    /// zero-charge turret stays put and reports an elimination event
    /// instead — eliminations must flow through the lifecycle pass.
    #[verifier::loop_isolation(false)]
    pub fn update_charge_level(&mut self) -> (events: Vec<EliminationEvent>)
        ensures
            events@ == spec_elimination_events(*old(self)),
            spec_level_phase_rel(*old(self), *final(self)),
    {
        let mut i: usize = 0;
        while i < self.bullets.len()
            invariant
                i <= self.bullets@.len(),
                self.bullets@.len() == old(self).bullets@.len(),
                forall|j: int|
                    0 <= j < i ==> self.bullets@[j] == spec_leveled_bullet(old(self).bullets@[j]),
                forall|j: int|
                    i <= j < self.bullets@.len() ==> self.bullets@[j] == old(self).bullets@[j],
                self.tiles == old(self).tiles,
                self.turrets == old(self).turrets,
                self.survivors == old(self).survivors,
                self.survivor_count == old(self).survivor_count,
            decreases self.bullets@.len() - i,
        {
            match self.bullets[i] {
                Some(bullet) => {
                    if bullet.charge.value > 0 {
                        proof {
                            crate::charge::lemma_level_le_65(bullet.charge.value);
                        }
                        let leveled = Charge::from_value(bullet.charge.value);
                        self.bullets[i] = Some(Bullet { charge: leveled, ..bullet });
                    } else {
                        self.bullets[i] = None;
                    }
                },
                None => {},
            }
            i = i + 1;
        }
        let mut events: Vec<EliminationEvent> = Vec::new();
        Self::level_turret(&mut self.turrets.a, Participant::A, &mut events);
        Self::level_turret(&mut self.turrets.b, Participant::B, &mut events);
        Self::level_turret(&mut self.turrets.c, Participant::C, &mut events);
        Self::level_turret(&mut self.turrets.d, Participant::D, &mut events);
        proof {
            assert(events@ =~= spec_elimination_events(*old(self)));
        }
        events
    }

    /// Removes an eliminated participant from the match: the survivor flag
    /// falls, the survivor count drops by one, and every entity of that
    /// participant that is not a tile — the turret assembly and its
    /// bullets in flight — despawns.  Tiles keep their last captured-by
    /// owner.
    #[verifier::loop_isolation(false)]
    pub fn handle_elimination(&mut self, event: &EliminationEvent)
        requires
            old(self).wf(),
            old(self).survivors.spec_get(event.participant),
        ensures
            final(self).wf(),
            final(self).survivors == old(self).survivors.spec_set(event.participant, false),
            final(self).survivor_count.0 == old(self).survivor_count.0 - 1,
            final(self).turrets == old(self).turrets.spec_set(event.participant, None),
            final(self).tiles == old(self).tiles,
            final(self).bullets@.len() == old(self).bullets@.len(),
            forall|i: int|
                0 <= i < old(self).bullets@.len() ==> final(self).bullets@[i]
                    == spec_surviving_bullet(old(self).bullets@[i], event.participant),
    {
        self.survivors.set(event.participant, false);
        self.survivor_count.0 = self.survivor_count.0 - 1;
        let slot = self.turret_mut(event.participant);
        *slot = None;
        let mut i: usize = 0;
        while i < self.bullets.len()
            invariant
                i <= self.bullets@.len(),
                self.bullets@.len() == old(self).bullets@.len(),
                forall|j: int|
                    0 <= j < i ==> self.bullets@[j] == spec_surviving_bullet(
                        old(self).bullets@[j],
                        event.participant,
                    ),
                forall|j: int|
                    i <= j < self.bullets@.len() ==> self.bullets@[j] == old(self).bullets@[j],
                self.tiles == old(self).tiles,
                self.turrets == old(self).turrets.spec_set(event.participant, None),
                self.survivors == old(self).survivors.spec_set(event.participant, false),
                self.survivor_count.0 == old(self).survivor_count.0 - 1,
            decreases self.bullets@.len() - i,
        {
            match self.bullets[i] {
                Some(bullet) => {
                    if bullet.owner == event.participant {
                        self.bullets[i] = None;
                    }
                },
                None => {},
            }
            i = i + 1;
        }
    }

    /// Whether a turret slot holds a zero-charge turret.
    fn slot_is_zeroed(slot: &Option<Turret>) -> (zeroed: bool)
        ensures
            zeroed == spec_zeroed(*slot),
    {
        match slot {
            Some(turret) => turret.charge.value == 0,
            None => false,
        }
    }

    /// Feeds every contact report of this tick through the bullet-tile
    /// system, in order.
    #[verifier::loop_isolation(false)]
    fn run_tile_collisions(&mut self, collisions: &Vec<CollisionPair>)
        requires
            old(self).wf(),
        ensures
            final(self).wf(),
            final(self).survivors == old(self).survivors,
            final(self).survivor_count == old(self).survivor_count,
            spec_chain(spec_tile_rel_fn(), *old(self), *final(self), collisions@),
    {
        proof {
            assert(collisions@.subrange(0, 0) =~= Seq::<CollisionPair>::empty());
        }
        let mut i: usize = 0;
        while i < collisions.len()
            invariant
                i <= collisions@.len(),
                self.wf(),
                self.survivors == old(self).survivors,
                self.survivor_count == old(self).survivor_count,
                spec_chain(
                    spec_tile_rel_fn(),
                    *old(self),
                    *self,
                    collisions@.subrange(0, i as int),
                ),
            decreases collisions@.len() - i,
        {
            let ghost prev = *self;
            let pair = collisions[i];
            self.handle_bullet_tile_collision(&pair);
            proof {
                assert(spec_tile_rel_fn()(prev, *self, pair));
                lemma_chain_snoc(
                    spec_tile_rel_fn(),
                    *old(self),
                    prev,
                    *self,
                    collisions@.subrange(0, i as int),
                    pair,
                );
                assert(collisions@.subrange(0, i + 1 as int) =~= collisions@.subrange(
                    0,
                    i as int,
                ).push(collisions@[i as int]));
            }
            i = i + 1;
        }
        proof {
            assert(collisions@.subrange(0, collisions@.len() as int) =~= collisions@);
        }
    }

    /// Feeds every contact report of this tick through the bullet-turret
    /// system, in order, after the tile system has run.
    #[verifier::loop_isolation(false)]
    fn run_turret_collisions(&mut self, collisions: &Vec<CollisionPair>, now: i64)
        requires
            old(self).wf(),
        ensures
            final(self).wf(),
            final(self).survivors == old(self).survivors,
            final(self).survivor_count == old(self).survivor_count,
            spec_chain(spec_turret_rel_fn(now), *old(self), *final(self), collisions@),
    {
        proof {
            assert(collisions@.subrange(0, 0) =~= Seq::<CollisionPair>::empty());
        }
        let mut i: usize = 0;
        while i < collisions.len()
            invariant
                i <= collisions@.len(),
                self.wf(),
                self.survivors == old(self).survivors,
                self.survivor_count == old(self).survivor_count,
                spec_chain(
                    spec_turret_rel_fn(now),
                    *old(self),
                    *self,
                    collisions@.subrange(0, i as int),
                ),
            decreases collisions@.len() - i,
        {
            let ghost prev = *self;
            let pair = collisions[i];
            self.handle_bullet_turret_collision(&pair, now);
            proof {
                assert(spec_turret_rel_fn(now)(prev, *self, pair));
                lemma_chain_snoc(
                    spec_turret_rel_fn(now),
                    *old(self),
                    prev,
                    *self,
                    collisions@.subrange(0, i as int),
                    pair,
                );
                assert(collisions@.subrange(0, i + 1 as int) =~= collisions@.subrange(
                    0,
                    i as int,
                ).push(collisions@[i as int]));
            }
            i = i + 1;
        }
        proof {
            assert(collisions@.subrange(0, collisions@.len() as int) =~= collisions@);
        }
    }

    /// Applies every trigger event of this tick to its turret, in order.
    #[verifier::loop_isolation(false)]
    fn run_triggers(&mut self, triggers: &Vec<TriggerEvent>, now: i64)
        requires
            old(self).wf(),
        ensures
            final(self).wf(),
            final(self).survivors == old(self).survivors,
            final(self).survivor_count == old(self).survivor_count,
            spec_chain(spec_trigger_rel_fn(now), *old(self), *final(self), triggers@),
    {
        proof {
            assert(triggers@.subrange(0, 0) =~= Seq::<TriggerEvent>::empty());
        }
        let mut i: usize = 0;
        while i < triggers.len()
            invariant
                i <= triggers@.len(),
                self.wf(),
                self.survivors == old(self).survivors,
                self.survivor_count == old(self).survivor_count,
                spec_chain(
                    spec_trigger_rel_fn(now),
                    *old(self),
                    *self,
                    triggers@.subrange(0, i as int),
                ),
            decreases triggers@.len() - i,
        {
            let ghost prev = *self;
            let event = triggers[i];
            self.handle_trigger_event(&event, now);
            proof {
                assert(spec_trigger_rel_fn(now)(prev, *self, event));
                lemma_chain_snoc(
                    spec_trigger_rel_fn(now),
                    *old(self),
                    prev,
                    *self,
                    triggers@.subrange(0, i as int),
                    event,
                );
                assert(triggers@.subrange(0, i + 1 as int) =~= triggers@.subrange(
                    0,
                    i as int,
                ).push(triggers@[i as int]));
            }
            i = i + 1;
        }
        proof {
            assert(triggers@.subrange(0, triggers@.len() as int) =~= triggers@);
        }
    }

    /// The elimination pass: removes every participant whose turret stands
    /// at zero after the level-recompute pass, in participant order.
    #[verifier::rlimit(100)]
    fn eliminate_zeroed(&mut self)
        requires
            old(self).wf(),
        ensures
            final(self).wf(),
            spec_elim_pass_rel(*old(self), *final(self)),
    {
        if Self::slot_is_zeroed(&self.turrets.a) {
            self.handle_elimination(&EliminationEvent::new(Participant::A));
        }
        let ghost after_a = *self;
        if Self::slot_is_zeroed(&self.turrets.b) {
            self.handle_elimination(&EliminationEvent::new(Participant::B));
        }
        let ghost after_b = *self;
        if Self::slot_is_zeroed(&self.turrets.c) {
            self.handle_elimination(&EliminationEvent::new(Participant::C));
        }
        let ghost after_c = *self;
        if Self::slot_is_zeroed(&self.turrets.d) {
            self.handle_elimination(&EliminationEvent::new(Participant::D));
        }
        proof {
            assert forall|i: int| 0 <= i < old(self).bullets@.len() implies self.bullets@[i]
                == spec_elim_filtered_bullet(*old(self), old(self).bullets@[i]) by {
                assert(after_a.bullets@[i] == spec_surviving_bullet(
                    old(self).bullets@[i],
                    Participant::A,
                ) || after_a.bullets@[i] == old(self).bullets@[i]);
                assert(after_b.bullets@[i] == spec_surviving_bullet(
                    after_a.bullets@[i],
                    Participant::B,
                ) || after_b.bullets@[i] == after_a.bullets@[i]);
                assert(after_c.bullets@[i] == spec_surviving_bullet(
                    after_b.bullets@[i],
                    Participant::C,
                ) || after_c.bullets@[i] == after_b.bullets@[i]);
                assert(self.bullets@[i] == spec_surviving_bullet(
                    after_c.bullets@[i],
                    Participant::D,
                ) || self.bullets@[i] == after_c.bullets@[i]);
            }
        }
    }

    /// Runs one full simulation tick in the fixed system order: tile
    /// collisions, then turret collisions, then trigger events, then the
    /// level-recompute and zero-charge pass, then elimination handling,
    /// then the firing pass.  A pending restart instead clears every
    /// queued event — stale triggers must not run against fresh state —
    /// and resets the battlefield.  Returns the eliminations the tick
    /// produced: exactly the participants whose survivor flags fell.
    #[verifier::rlimit(100)]
    pub fn tick(
        &mut self,
        now: i64,
        restart_events: &Vec<RestartEvent>,
        triggers: &Vec<TriggerEvent>,
        collisions: &Vec<CollisionPair>,
    ) -> (eliminations: Vec<EliminationEvent>)
        requires
            old(self).wf(),
        ensures
            final(self).wf(),
            restart_events@.len() > 0 ==> spec_is_initial(*final(self)) && eliminations@
                == Seq::<EliminationEvent>::empty(),
            restart_events@.len() == 0 ==> spec_tick_rel(
                *old(self),
                *final(self),
                now,
                triggers@,
                collisions@,
                eliminations@,
            ),
            restart_events@.len() == 0 ==> forall|p: Participant|
                #[trigger] final(self).survivors.spec_get(p) == (old(self).survivors.spec_get(p)
                    && !eliminations@.contains(EliminationEvent { participant: p })),
            restart_events@.len() == 0 ==> forall|i: int|
                0 <= i < eliminations@.len() ==> old(self).survivors.spec_get(
                    #[trigger] eliminations@[i].participant,
                ),
    {
        if restart_events.len() > 0 {
            self.restart();
            return Vec::new();
        }
        self.run_tile_collisions(collisions);
        let ghost s1 = *self;
        self.run_turret_collisions(collisions, now);
        let ghost s2 = *self;
        self.run_triggers(triggers, now);
        let ghost s3 = *self;
        let eliminations = self.update_charge_level();
        let ghost s4 = *self;
        proof {
            lemma_events_contains_one(s3, EliminationEvent { participant: Participant::A });
            lemma_events_contains_one(s3, EliminationEvent { participant: Participant::B });
            lemma_events_contains_one(s3, EliminationEvent { participant: Participant::C });
            lemma_events_contains_one(s3, EliminationEvent { participant: Participant::D });
            lemma_events_all_zeroed(s3);
        }
        self.eliminate_zeroed();
        let ghost s5 = *self;
        self.fire_shots();
        proof {
            let witness = (s1, s2, s3, s4, s5);
            assert(spec_chain(spec_tile_rel_fn(), *old(self), witness.0, collisions@));
            assert(spec_chain(spec_turret_rel_fn(now), witness.0, witness.1, collisions@));
            assert(spec_chain(spec_trigger_rel_fn(now), witness.1, witness.2, triggers@));
            assert(spec_level_phase_rel(witness.2, witness.3));
            assert(eliminations@ == spec_elimination_events(witness.2));
            assert(spec_elim_pass_rel(witness.3, witness.4));
            assert(spec_fire_rel(witness.4, *self));
        }
        eliminations
    }

    /// Resets the match: despawns every bullet and turret, regenerates the
    /// tile grid and the turret assemblies, and restores the survivor
    /// bookkeeping.
    pub fn restart(&mut self)
        ensures
            final(self).wf(),
            spec_is_initial(*final(self)),
    {
        *self = Self::new();
    }
}

/// Law: restarting twice in succession, with no intervening events, yields
/// the same tile grid, turret set and survivor state as a single restart —
/// the reset state is pinned, so restart is idempotent.
pub proof fn lemma_restart_idempotent(w1: Battlefield, w2: Battlefield)
    requires
        spec_is_initial(w1),
        spec_is_initial(w2),
    ensures
        w1.tiles@ == w2.tiles@,
        w1.bullets@ == w2.bullets@,
        w1.survivors == w2.survivors,
        w1.survivor_count == w2.survivor_count,
        spec_turret_obs_eq(w1.turrets.a, w2.turrets.a),
        spec_turret_obs_eq(w1.turrets.b, w2.turrets.b),
        spec_turret_obs_eq(w1.turrets.c, w2.turrets.c),
        spec_turret_obs_eq(w1.turrets.d, w2.turrets.d),
{
    assert forall|i: int| 0 <= i < TILE_TOTAL implies w1.tiles@[i] == w2.tiles@[i] by {
        assert(w1.tiles@[i] == spec_initial_owner(i));
        assert(w2.tiles@[i] == spec_initial_owner(i));
    }
    assert(w1.tiles@ =~= w2.tiles@);
    assert(w1.bullets@ =~= w2.bullets@);
}

} // verus!
