use std::collections::VecDeque;

use multiply_or_release::battlefield::Battlefield;
use multiply_or_release::battlefield::Bullet;
use multiply_or_release::battlefield::CollisionBody;
use multiply_or_release::battlefield::CollisionPair;
use multiply_or_release::battlefield::EliminationEvent;
use multiply_or_release::battlefield::QUADRANT_TILE_COUNT;
use multiply_or_release::battlefield::RestartEvent;
use multiply_or_release::battlefield::ShotType;
use multiply_or_release::battlefield::TILE_TOTAL;
use multiply_or_release::battlefield::Turret;
use multiply_or_release::battlefield::BURST_SHOT_BULLET_SPEED;
use multiply_or_release::battlefield::CHARGED_SHOT_BULLET_SPEED;
use multiply_or_release::battlefield::game_is_going;
use multiply_or_release::charge::Charge;
use multiply_or_release::panel::TriggerEvent;
use multiply_or_release::panel::TriggerType;
use multiply_or_release::participant::Participant;

fn bullet_of(owner: Participant, value: u64) -> Bullet {
    Bullet {
        owner,
        charge: Charge::from_value(value),
        is_new: false,
        speed: CHARGED_SHOT_BULLET_SPEED,
    }
}

fn pair(a: CollisionBody, b: CollisionBody) -> CollisionPair {
    CollisionPair { a, b }
}

#[test]
fn setup_builds_the_quadrant_grid() {
    let w = Battlefield::new();
    assert_eq!(w.tiles.len(), TILE_TOTAL);
    assert_eq!(w.tiles[0], Participant::A);
    assert_eq!(w.tiles[QUADRANT_TILE_COUNT - 1], Participant::A);
    assert_eq!(w.tiles[QUADRANT_TILE_COUNT], Participant::B);
    assert_eq!(w.tiles[2 * QUADRANT_TILE_COUNT], Participant::C);
    assert_eq!(w.tiles[3 * QUADRANT_TILE_COUNT], Participant::D);
    assert_eq!(w.tiles[TILE_TOTAL - 1], Participant::D);
    assert_eq!(w.survivor_count.0, 4);
    assert!(w.survivors.a && w.survivors.b && w.survivors.c && w.survivors.d);
    assert!(w.bullets.is_empty());
    let turret = w.turrets.a.as_ref().unwrap();
    assert_eq!(turret.charge.value, 16);
    assert!(turret.firing_queue.is_empty());
    assert!(game_is_going(&w.survivor_count));
}

#[test]
fn symmetric_damage_exchange() {
    let mut w = Battlefield::new();
    w.turrets.b.as_mut().unwrap().charge = Charge::from_value(12);
    w.bullets.push(Some(bullet_of(Participant::A, 5)));
    let contact = pair(
        CollisionBody::Bullet { index: 0 },
        CollisionBody::Turret { owner: Participant::B },
    );
    w.handle_bullet_turret_collision(&contact, 42);
    let bullet = w.bullets[0].unwrap();
    assert_eq!(bullet.charge.value, 0);
    let turret = w.turrets.b.as_ref().unwrap();
    assert_eq!(turret.charge.value, 7);
    assert_eq!(turret.last_hit_timestamp, 42);
    // The zero-charge pass despawns the spent bullet and leaves the turret
    // alive; no elimination is reported.
    let events = w.update_charge_level();
    assert!(events.is_empty());
    assert!(w.bullets[0].is_none());
    assert_eq!(w.turrets.b.as_ref().unwrap().charge.value, 7);
    assert_eq!(w.turrets.b.as_ref().unwrap().charge.level, 4);
}

#[test]
fn bullets_never_damage_their_own_turret() {
    let mut w = Battlefield::new();
    w.bullets.push(Some(bullet_of(Participant::A, 5)));
    let contact = pair(
        CollisionBody::Turret { owner: Participant::A },
        CollisionBody::Bullet { index: 0 },
    );
    w.handle_bullet_turret_collision(&contact, 7);
    assert_eq!(w.bullets[0].unwrap().charge.value, 5);
    assert_eq!(w.turrets.a.as_ref().unwrap().charge.value, 16);
}

#[test]
fn tile_capture_spends_exactly_one_charge() {
    let mut w = Battlefield::new();
    w.bullets.push(Some(bullet_of(Participant::A, 3)));
    let enemy_tiles = [
        QUADRANT_TILE_COUNT,
        QUADRANT_TILE_COUNT + 1,
        QUADRANT_TILE_COUNT + 2,
    ];
    for (hits, tile) in enemy_tiles.iter().enumerate() {
        let contact = pair(
            CollisionBody::Bullet { index: 0 },
            CollisionBody::Tile { index: *tile },
        );
        w.handle_bullet_tile_collision(&contact);
        assert_eq!(w.tiles[*tile], Participant::A);
        assert_eq!(w.bullets[0].unwrap().charge.value, 3 - hits as u64 - 1);
    }
    // A fourth contact by the now-zero-charge bullet flips nothing.
    let fourth = QUADRANT_TILE_COUNT + 3;
    let contact = pair(
        CollisionBody::Bullet { index: 0 },
        CollisionBody::Tile { index: fourth },
    );
    w.handle_bullet_tile_collision(&contact);
    assert_eq!(w.tiles[fourth], Participant::B);
    assert_eq!(w.bullets[0].unwrap().charge.value, 0);
}

#[test]
fn own_tiles_cost_nothing() {
    let mut w = Battlefield::new();
    w.bullets.push(Some(bullet_of(Participant::A, 3)));
    let contact = pair(
        CollisionBody::Bullet { index: 0 },
        CollisionBody::Tile { index: 0 },
    );
    w.handle_bullet_tile_collision(&contact);
    assert_eq!(w.tiles[0], Participant::A);
    assert_eq!(w.bullets[0].unwrap().charge.value, 3);
}

#[test]
fn stale_collision_reports_are_no_ops() {
    let mut w = Battlefield::new();
    w.bullets.push(None);
    let stale_bullet = pair(
        CollisionBody::Bullet { index: 0 },
        CollisionBody::Tile { index: QUADRANT_TILE_COUNT },
    );
    w.handle_bullet_tile_collision(&stale_bullet);
    assert_eq!(w.tiles[QUADRANT_TILE_COUNT], Participant::B);
    let out_of_range = pair(
        CollisionBody::Bullet { index: 99 },
        CollisionBody::Turret { owner: Participant::B },
    );
    w.handle_bullet_turret_collision(&out_of_range, 5);
    assert_eq!(w.turrets.b.as_ref().unwrap().charge.value, 16);
}

#[test]
fn multiply_trigger_scales_the_live_charge() {
    let mut w = Battlefield::new();
    let event = TriggerEvent {
        participant: Participant::A,
        trigger_type: TriggerType::Multiply(3),
    };
    w.handle_trigger_event(&event, 0);
    let turret = w.turrets.a.as_ref().unwrap();
    assert_eq!(turret.charge.value, 48);
    assert!(turret.firing_queue.is_empty());
}

#[test]
fn shot_trigger_queues_and_resets_boosted() {
    let mut w = Battlefield::new();
    w.turrets.a.as_mut().unwrap().charge = Charge::from_value(999);
    let event = TriggerEvent {
        participant: Participant::A,
        trigger_type: TriggerType::ChargedShot,
    };
    // Fresh turret: never hit, so the cooldown has long elapsed.
    w.handle_trigger_event(&event, 1_000);
    let turret = w.turrets.a.as_ref().unwrap();
    assert_eq!(turret.firing_queue.len(), 1);
    let (shot_type, queued) = turret.firing_queue[0];
    assert_eq!(shot_type, ShotType::Charged);
    assert_eq!(queued.value, 999);
    assert_eq!(turret.charge.value, 16);
}

#[test]
fn shot_trigger_resets_bare_after_a_recent_hit() {
    let mut w = Battlefield::new();
    {
        let turret = w.turrets.b.as_mut().unwrap();
        turret.charge = Charge::from_value(999);
        turret.last_hit_timestamp = 8_000;
    }
    let event = TriggerEvent {
        participant: Participant::B,
        trigger_type: TriggerType::BurstShot,
    };
    // 2000 ms since the last hit: within the cooldown window.
    w.handle_trigger_event(&event, 10_000);
    let turret = w.turrets.b.as_ref().unwrap();
    assert_eq!(turret.firing_queue.len(), 1);
    let (shot_type, queued) = turret.firing_queue[0];
    assert_eq!(shot_type, ShotType::Multi);
    assert_eq!(queued.value, 999);
    assert_eq!(turret.charge.value, 1);
    assert_eq!(turret.charge.level, 1);
    // 5001 ms later the window has passed.
    let event = TriggerEvent {
        participant: Participant::B,
        trigger_type: TriggerType::BurstShot,
    };
    w.handle_trigger_event(&event, 13_001);
    assert_eq!(w.turrets.b.as_ref().unwrap().charge.value, 16);
}

#[test]
fn stale_trigger_events_drop_silently() {
    let mut w = Battlefield::new();
    w.turrets.c = None;
    w.survivors.c = false;
    w.survivor_count.0 = 3;
    let event = TriggerEvent {
        participant: Participant::C,
        trigger_type: TriggerType::Multiply(9),
    };
    w.handle_trigger_event(&event, 0);
    assert!(w.turrets.c.is_none());
    assert_eq!(w.survivor_count.0, 3);
}

#[test]
fn charged_shot_fires_the_whole_queued_charge() {
    let mut w = Battlefield::new();
    w.turrets.a.as_mut().unwrap().firing_queue.push_front((
        ShotType::Charged,
        Charge::from_value(40),
    ));
    w.fire_shots();
    assert_eq!(w.bullets.len(), 1);
    let bullet = w.bullets[0].unwrap();
    assert_eq!(bullet.owner, Participant::A);
    assert_eq!(bullet.charge.value, 40);
    assert!(bullet.is_new);
    assert_eq!(bullet.speed, CHARGED_SHOT_BULLET_SPEED);
    assert!(w.turrets.a.as_ref().unwrap().firing_queue.is_empty());
}

#[test]
fn burst_shot_emits_a_pellet_and_requeues_the_remainder() {
    let mut w = Battlefield::new();
    let stored = Charge::from_value(1u64 << 19);
    assert_eq!(stored.level, 20);
    w.turrets.a.as_mut().unwrap().firing_queue.push_front((ShotType::Multi, stored));
    w.fire_shots();
    let bullet = w.bullets[0].unwrap();
    assert_eq!(bullet.charge.value, 12);
    assert_eq!(bullet.speed, BURST_SHOT_BULLET_SPEED);
    let turret = w.turrets.a.as_ref().unwrap();
    assert_eq!(turret.firing_queue.len(), 1);
    let (shot_type, remainder) = turret.firing_queue[0];
    assert_eq!(shot_type, ShotType::Multi);
    assert_eq!(remainder.value, (1u64 << 19) - 12);
    assert_eq!(remainder.level, 20);
}

#[test]
fn burst_drain_terminates() {
    let mut w = Battlefield::new();
    w.turrets.a.as_mut().unwrap().firing_queue.push_front((
        ShotType::Multi,
        Charge::from_value(1u64 << 19),
    ));
    let mut ticks: u64 = 0;
    while !w.turrets.a.as_ref().unwrap().firing_queue.is_empty() {
        w.fire_shots();
        ticks += 1;
        assert!(ticks <= 1u64 << 19, "burst drain must stay bounded");
    }
    assert!(ticks > 1);
    // Every emitted pellet carries at least one unit of charge.
    for slot in &w.bullets {
        let bullet = slot.unwrap();
        assert!(bullet.charge.value >= 1);
    }
}

#[test]
fn firing_queue_drains_oldest_first() {
    let mut w = Battlefield::new();
    {
        let queue = &mut w.turrets.a.as_mut().unwrap().firing_queue;
        queue.push_front((ShotType::Charged, Charge::from_value(10)));
        queue.push_front((ShotType::Charged, Charge::from_value(20)));
    }
    w.fire_shots();
    w.fire_shots();
    assert_eq!(w.bullets[0].unwrap().charge.value, 10);
    assert_eq!(w.bullets[1].unwrap().charge.value, 20);
}

#[test]
fn firing_freezes_once_the_game_is_over() {
    let mut w = Battlefield::new();
    w.turrets.a = None;
    w.survivors.a = false;
    w.turrets.b = None;
    w.survivors.b = false;
    w.turrets.c = None;
    w.survivors.c = false;
    w.survivor_count.0 = 1;
    w.turrets.d.as_mut().unwrap().firing_queue.push_front((
        ShotType::Charged,
        Charge::from_value(10),
    ));
    w.fire_shots();
    assert!(w.bullets.is_empty());
    assert_eq!(w.turrets.d.as_ref().unwrap().firing_queue.len(), 1);
}

#[test]
fn elimination_flows_through_the_event_and_cleans_up() {
    let mut w = Battlefield::new();
    w.turrets.b.as_mut().unwrap().charge = Charge::from_value(5);
    w.bullets.push(Some(bullet_of(Participant::B, 9)));
    w.bullets.push(Some(bullet_of(Participant::A, 5)));
    let contact = pair(
        CollisionBody::Bullet { index: 1 },
        CollisionBody::Turret { owner: Participant::B },
    );
    let events = w.tick(1_000, &Vec::new(), &Vec::new(), &vec![contact]);
    assert_eq!(events.len(), 1);
    assert_eq!(events[0], EliminationEvent { participant: Participant::B });
    assert!(w.turrets.b.is_none());
    assert!(!w.survivors.b);
    assert_eq!(w.survivor_count.0, 3);
    // All of B's non-tile entities are gone: its bullet in flight too.
    assert!(w.bullets[0].is_none());
    // A's spent bullet despawned quietly, with no second event.
    assert!(w.bullets[1].is_none());
}

#[test]
fn graduation_out_of_the_new_bullet_layer() {
    let mut w = Battlefield::new();
    w.bullets.push(Some(Bullet { is_new: true, ..bullet_of(Participant::A, 4) }));
    // Still inside the spawn corner: nothing changes.
    w.update_bullets_solver_groups(0, true, false);
    assert!(w.bullets[0].unwrap().is_new);
    // Clear of the corner but still touching something: nothing changes.
    w.update_bullets_solver_groups(0, false, true);
    assert!(w.bullets[0].unwrap().is_new);
    // Clear and free: the bullet settles.
    w.update_bullets_solver_groups(0, false, false);
    assert!(!w.bullets[0].unwrap().is_new);
}

#[test]
fn restart_is_idempotent() {
    let mut w = Battlefield::new();
    // Disturb the state thoroughly.
    let trigger = TriggerEvent {
        participant: Participant::A,
        trigger_type: TriggerType::ChargedShot,
    };
    w.tick(100, &Vec::new(), &vec![trigger], &Vec::new());
    w.turrets.d = None;
    w.survivors.d = false;
    w.survivor_count.0 = 3;
    w.tiles[0] = Participant::C;
    let restart = vec![RestartEvent];
    let events = w.tick(200, &restart, &Vec::new(), &Vec::new());
    assert!(events.is_empty());
    let tiles_once = w.tiles.clone();
    let survivors_once = (w.survivors.a, w.survivors.b, w.survivors.c, w.survivors.d);
    let count_once = w.survivor_count.0;
    let charge_once = w.turrets.a.as_ref().unwrap().charge;
    // A second restart with no intervening events changes nothing
    // observable.
    let events = w.tick(200, &restart, &Vec::new(), &Vec::new());
    assert!(events.is_empty());
    assert_eq!(w.tiles, tiles_once);
    assert_eq!(
        (w.survivors.a, w.survivors.b, w.survivors.c, w.survivors.d),
        survivors_once,
    );
    assert_eq!(w.survivor_count.0, count_once);
    assert_eq!(w.turrets.a.as_ref().unwrap().charge, charge_once);
    assert!(w.turrets.d.as_ref().unwrap().firing_queue.is_empty());
    assert!(w.bullets.is_empty());
    assert_eq!(w.tiles[0], Participant::A);
}

#[test]
fn restart_discards_pending_triggers() {
    let mut w = Battlefield::new();
    let trigger = TriggerEvent {
        participant: Participant::A,
        trigger_type: TriggerType::ChargedShot,
    };
    let restart = vec![RestartEvent];
    w.tick(100, &restart, &vec![trigger], &Vec::new());
    // The stale trigger never queued a shot against the fresh state.
    assert!(w.turrets.a.as_ref().unwrap().firing_queue.is_empty());
    assert!(w.bullets.is_empty());
}

#[test]
fn end_to_end_charged_shot_captures_a_tile() {
    let mut w = Battlefield::new();
    w.turrets.a.as_mut().unwrap().charge = Charge::from_value(8);
    assert_eq!(w.turrets.a.as_ref().unwrap().charge.level, 4);
    let trigger = TriggerEvent {
        participant: Participant::A,
        trigger_type: TriggerType::ChargedShot,
    };
    let events = w.tick(10_000, &Vec::new(), &vec![trigger], &Vec::new());
    assert!(events.is_empty());
    // The queued charge left the barrel as one bullet of value 8.
    assert_eq!(w.bullets.len(), 1);
    let bullet = w.bullets[0].unwrap();
    assert_eq!(bullet.owner, Participant::A);
    assert_eq!(bullet.charge.value, 8);
    // The turret, never hit, reset to the boosted baseline.
    assert_eq!(w.turrets.a.as_ref().unwrap().charge.value, 16);
    // Next tick the bullet touches one of B's tiles.
    let contact = pair(
        CollisionBody::Tile { index: QUADRANT_TILE_COUNT },
        CollisionBody::Bullet { index: 0 },
    );
    let events = w.tick(11_000, &Vec::new(), &Vec::new(), &vec![contact]);
    assert!(events.is_empty());
    assert_eq!(w.tiles[QUADRANT_TILE_COUNT], Participant::A);
    assert_eq!(w.bullets[0].unwrap().charge.value, 7);
    assert_eq!(w.survivor_count.0, 4);
    assert!(w.survivors.a && w.survivors.b && w.survivors.c && w.survivors.d);
}

#[test]
fn turret_table_round_trip() {
    // A turret built by hand matches one the battlefield builds.
    let fresh = Battlefield::new();
    let by_hand = Turret {
        charge: Charge::from_value(16),
        firing_queue: VecDeque::new(),
        last_hit_timestamp: -5_000,
    };
    let built = fresh.turrets.a.as_ref().unwrap();
    assert_eq!(built.charge, by_hand.charge);
    assert_eq!(built.last_hit_timestamp, by_hand.last_hit_timestamp);
    assert_eq!(built.firing_queue.len(), by_hand.firing_queue.len());
}
