use multiply_or_release::collision_groups;
use multiply_or_release::panel::PanelBody;
use multiply_or_release::panel::PanelRootSide;
use multiply_or_release::panel::TriggerType;
use multiply_or_release::panel::trigger_event;
use multiply_or_release::participant::Participant;
use multiply_or_release::participant::ParticipantMap;

#[test]
fn group_bits_are_distinct_per_participant() {
    assert_eq!(collision_groups::tile(Participant::A), 0x8);
    assert_eq!(collision_groups::tile(Participant::B), 0x10);
    assert_eq!(collision_groups::tile(Participant::C), 0x20);
    assert_eq!(collision_groups::tile(Participant::D), 0x40);
    assert_eq!(collision_groups::bullet(Participant::A), 0x80);
    assert_eq!(collision_groups::turret(Participant::D), 0x4000);
    assert_eq!(collision_groups::new_bullet(Participant::A), 0x10000);
}

#[test]
fn except_masks_drop_exactly_the_own_group() {
    for participant in [Participant::A, Participant::B, Participant::C, Participant::D] {
        let tiles = collision_groups::all_tiles_except(participant);
        assert_eq!(tiles & collision_groups::tile(participant), 0);
        assert_eq!(tiles | collision_groups::tile(participant), collision_groups::ALL_TILES);
        let bullets = collision_groups::all_bullets_except(participant);
        assert_eq!(bullets & collision_groups::bullet(participant), 0);
        assert_eq!(bullets | collision_groups::bullet(participant), collision_groups::ALL_BULLETS);
        let new_bullets = collision_groups::all_new_bullets_except(participant);
        assert_eq!(new_bullets & collision_groups::new_bullet(participant), 0);
        assert_eq!(
            new_bullets | collision_groups::new_bullet(participant),
            collision_groups::ALL_NEW_BULLETS,
        );
        let turrets = collision_groups::all_turrets_except(participant);
        assert_eq!(turrets & collision_groups::turret(participant), 0);
        assert_eq!(turrets | collision_groups::turret(participant), collision_groups::ALL_TURRETS);
    }
}

#[test]
fn composed_filters_match_their_parts() {
    let owner = Participant::B;
    assert_eq!(
        collision_groups::tile_filters(owner),
        collision_groups::all_bullets_except(owner)
            | collision_groups::all_new_bullets_except(owner),
    );
    assert_eq!(
        collision_groups::turret_filters(owner),
        collision_groups::ALL_BULLETS | collision_groups::all_new_bullets_except(owner),
    );
    assert_eq!(
        collision_groups::new_bullet_collision_filters(owner),
        collision_groups::BATTLEFIELD_ROOT
            | collision_groups::ALL_BULLETS
            | collision_groups::ALL_NEW_BULLETS
            | collision_groups::ALL_TURRETS
            | collision_groups::all_tiles_except(owner),
    );
    assert_eq!(
        collision_groups::new_bullet_solver_filters(owner),
        collision_groups::BATTLEFIELD_ROOT
            | collision_groups::ALL_BULLETS
            | collision_groups::all_new_bullets_except(owner),
    );
    assert_eq!(
        collision_groups::bullet_collision_filters(owner),
        collision_groups::new_bullet_collision_filters(owner),
    );
    assert_eq!(
        collision_groups::bullet_solver_filters(owner),
        collision_groups::BATTLEFIELD_ROOT
            | collision_groups::ALL_BULLETS
            | collision_groups::ALL_NEW_BULLETS
            | collision_groups::ALL_TURRETS,
    );
}

#[test]
fn trigger_event_pairs_zone_and_ball() {
    let zone = PanelBody::TriggerZone(TriggerType::BurstShot);
    let ball = PanelBody::WorkerBall(Participant::C);
    let event = trigger_event(&zone, &ball).unwrap();
    assert_eq!(event.participant, Participant::C);
    assert_eq!(event.trigger_type, TriggerType::BurstShot);
    let swapped = trigger_event(&ball, &zone).unwrap();
    assert_eq!(swapped, event);
}

#[test]
fn trigger_event_carries_the_multiply_factor() {
    let zone = PanelBody::TriggerZone(TriggerType::Multiply(4));
    let ball = PanelBody::WorkerBall(Participant::A);
    let event = trigger_event(&zone, &ball).unwrap();
    assert_eq!(event.trigger_type, TriggerType::Multiply(4));
}

#[test]
fn trigger_event_needs_both_a_zone_and_a_ball() {
    let zone = PanelBody::TriggerZone(TriggerType::ChargedShot);
    let ball = PanelBody::WorkerBall(Participant::A);
    let wall = PanelBody::Other;
    assert!(trigger_event(&zone, &zone).is_none());
    assert!(trigger_event(&ball, &ball).is_none());
    assert!(trigger_event(&zone, &wall).is_none());
    assert!(trigger_event(&ball, &wall).is_none());
    assert!(trigger_event(&wall, &wall).is_none());
}

#[test]
fn panel_sides_split_the_participants() {
    assert_eq!(PanelRootSide::for_participant(Participant::A), PanelRootSide::Left);
    assert_eq!(PanelRootSide::for_participant(Participant::B), PanelRootSide::Left);
    assert_eq!(PanelRootSide::for_participant(Participant::C), PanelRootSide::Right);
    assert_eq!(PanelRootSide::for_participant(Participant::D), PanelRootSide::Right);
}

#[test]
fn participant_map_keyed_access() {
    let mut map = ParticipantMap::new(1, 2, 3, 4);
    assert_eq!(*map.get(Participant::A), 1);
    assert_eq!(*map.get(Participant::D), 4);
    map.set(Participant::C, 30);
    assert_eq!(*map.get(Participant::C), 30);
    assert_eq!(*map.get(Participant::B), 2);
    let doubled = map.map(|x: i32| x * 2);
    assert_eq!(*doubled.get(Participant::A), 2);
    assert_eq!(*doubled.get(Participant::C), 60);
    let same = ParticipantMap::splat(7u8);
    assert_eq!(*same.get(Participant::B), 7);
    assert_eq!(*same.get(Participant::D), 7);
}
