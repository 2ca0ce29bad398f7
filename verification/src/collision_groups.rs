//! Collision-filter bitmasks.  Each participant and entity category gets a
//! group bit so the host physics engine only reports and resolves relevant
//! pairs; a temporary "new bullet" sub-layer delays self- and ally-collision
//! until a projectile clears its spawn zone.  A group is one bit of a
//! 32-bit mask; a filter is the union of the groups it accepts.

use vstd::prelude::*;

verus! {

use crate::participant::Participant;

pub const PANEL_OBSTACLES: u32 = 0x1;
pub const PANEL_BALLS: u32 = 0x2;
pub const PANEL_TRIGGER_ZONES: u32 = 0x4;
pub const TILE_A: u32 = 0x8;
pub const TILE_B: u32 = 0x10;
pub const TILE_C: u32 = 0x20;
pub const TILE_D: u32 = 0x40;
pub const BULLET_A: u32 = 0x80;
pub const BULLET_B: u32 = 0x100;
pub const BULLET_C: u32 = 0x200;
pub const BULLET_D: u32 = 0x400;
pub const TURRET_A: u32 = 0x800;
pub const TURRET_B: u32 = 0x1000;
pub const TURRET_C: u32 = 0x2000;
pub const TURRET_D: u32 = 0x4000;
pub const BATTLEFIELD_ROOT: u32 = 0x8000;
pub const NEW_BULLET_A: u32 = 0x10000;
pub const NEW_BULLET_B: u32 = 0x20000;
pub const NEW_BULLET_C: u32 = 0x40000;
pub const NEW_BULLET_D: u32 = 0x80000;
pub const ALL_TILES: u32 = TILE_A | TILE_B | TILE_C | TILE_D;
pub const ALL_BULLETS: u32 = BULLET_A | BULLET_B | BULLET_C | BULLET_D;
pub const ALL_NEW_BULLETS: u32 = NEW_BULLET_A | NEW_BULLET_B | NEW_BULLET_C | NEW_BULLET_D;
pub const ALL_TURRETS: u32 = TURRET_A | TURRET_B | TURRET_C | TURRET_D;

pub open spec fn spec_tile(participant: Participant) -> u32 {
    match participant {
        Participant::A => TILE_A,
        Participant::B => TILE_B,
        Participant::C => TILE_C,
        Participant::D => TILE_D,
    }
}

pub open spec fn spec_bullet(participant: Participant) -> u32 {
    match participant {
        Participant::A => BULLET_A,
        Participant::B => BULLET_B,
        Participant::C => BULLET_C,
        Participant::D => BULLET_D,
    }
}

pub open spec fn spec_new_bullet(participant: Participant) -> u32 {
    match participant {
        Participant::A => NEW_BULLET_A,
        Participant::B => NEW_BULLET_B,
        Participant::C => NEW_BULLET_C,
        Participant::D => NEW_BULLET_D,
    }
}

pub open spec fn spec_turret(participant: Participant) -> u32 {
    match participant {
        Participant::A => TURRET_A,
        Participant::B => TURRET_B,
        Participant::C => TURRET_C,
        Participant::D => TURRET_D,
    }
}

pub open spec fn spec_all_tiles_except(participant: Participant) -> u32 {
    match participant {
        Participant::A => TILE_B | TILE_C | TILE_D,
        Participant::B => TILE_A | TILE_C | TILE_D,
        Participant::C => TILE_A | TILE_B | TILE_D,
        Participant::D => TILE_A | TILE_B | TILE_C,
    }
}

pub open spec fn spec_all_bullets_except(participant: Participant) -> u32 {
    match participant {
        Participant::A => BULLET_B | BULLET_C | BULLET_D,
        Participant::B => BULLET_A | BULLET_C | BULLET_D,
        Participant::C => BULLET_A | BULLET_B | BULLET_D,
        Participant::D => BULLET_A | BULLET_B | BULLET_C,
    }
}

pub open spec fn spec_all_new_bullets_except(participant: Participant) -> u32 {
    match participant {
        Participant::A => NEW_BULLET_B | NEW_BULLET_C | NEW_BULLET_D,
        Participant::B => NEW_BULLET_A | NEW_BULLET_C | NEW_BULLET_D,
        Participant::C => NEW_BULLET_A | NEW_BULLET_B | NEW_BULLET_D,
        Participant::D => NEW_BULLET_A | NEW_BULLET_B | NEW_BULLET_C,
    }
}

pub open spec fn spec_all_turrets_except(participant: Participant) -> u32 {
    match participant {
        Participant::A => TURRET_B | TURRET_C | TURRET_D,
        Participant::B => TURRET_A | TURRET_C | TURRET_D,
        Participant::C => TURRET_A | TURRET_B | TURRET_D,
        Participant::D => TURRET_A | TURRET_B | TURRET_C,
    }
}

/// The group of a participant's tiles.
pub fn tile(participant: Participant) -> (group: u32)
    ensures
        group == spec_tile(participant),
{
    match participant {
        Participant::A => TILE_A,
        Participant::B => TILE_B,
        Participant::C => TILE_C,
        Participant::D => TILE_D,
    }
}

/// The group of a participant's settled bullets.
pub fn bullet(participant: Participant) -> (group: u32)
    ensures
        group == spec_bullet(participant),
{
    match participant {
        Participant::A => BULLET_A,
        Participant::B => BULLET_B,
        Participant::C => BULLET_C,
        Participant::D => BULLET_D,
    }
}

/// The temporary group of a participant's freshly fired bullets.
pub fn new_bullet(participant: Participant) -> (group: u32)
    ensures
        group == spec_new_bullet(participant),
{
    match participant {
        Participant::A => NEW_BULLET_A,
        Participant::B => NEW_BULLET_B,
        Participant::C => NEW_BULLET_C,
        Participant::D => NEW_BULLET_D,
    }
}

/// The group of a participant's turret.
pub fn turret(participant: Participant) -> (group: u32)
    ensures
        group == spec_turret(participant),
{
    match participant {
        Participant::A => TURRET_A,
        Participant::B => TURRET_B,
        Participant::C => TURRET_C,
        Participant::D => TURRET_D,
    }
}

/// The tiles of everyone but `participant`: what that participant's bullets
/// may capture.
pub fn all_tiles_except(participant: Participant) -> (filter: u32)
    ensures
        filter == spec_all_tiles_except(participant),
{
    match participant {
        Participant::A => TILE_B | TILE_C | TILE_D,
        Participant::B => TILE_A | TILE_C | TILE_D,
        Participant::C => TILE_A | TILE_B | TILE_D,
        Participant::D => TILE_A | TILE_B | TILE_C,
    }
}

/// The settled bullets of everyone but `participant`.
pub fn all_bullets_except(participant: Participant) -> (filter: u32)
    ensures
        filter == spec_all_bullets_except(participant),
{
    match participant {
        Participant::A => BULLET_B | BULLET_C | BULLET_D,
        Participant::B => BULLET_A | BULLET_C | BULLET_D,
        Participant::C => BULLET_A | BULLET_B | BULLET_D,
        Participant::D => BULLET_A | BULLET_B | BULLET_C,
    }
}

/// The fresh bullets of everyone but `participant`.
pub fn all_new_bullets_except(participant: Participant) -> (filter: u32)
    ensures
        filter == spec_all_new_bullets_except(participant),
{
    match participant {
        Participant::A => NEW_BULLET_B | NEW_BULLET_C | NEW_BULLET_D,
        Participant::B => NEW_BULLET_A | NEW_BULLET_C | NEW_BULLET_D,
        Participant::C => NEW_BULLET_A | NEW_BULLET_B | NEW_BULLET_D,
        Participant::D => NEW_BULLET_A | NEW_BULLET_B | NEW_BULLET_C,
    }
}

/// The turrets of everyone but `participant`: what that participant's
/// bullets may damage.
pub fn all_turrets_except(participant: Participant) -> (filter: u32)
    ensures
        filter == spec_all_turrets_except(participant),
{
    match participant {
        Participant::A => TURRET_B | TURRET_C | TURRET_D,
        Participant::B => TURRET_A | TURRET_C | TURRET_D,
        Participant::C => TURRET_A | TURRET_B | TURRET_D,
        Participant::D => TURRET_A | TURRET_B | TURRET_C,
    }
}

/// The filter a tile carries: bullets of every other participant, fresh or
/// settled.  Recomputed whenever the tile changes owner.
pub fn tile_filters(owner: Participant) -> (filter: u32)
    ensures
        filter == (spec_all_bullets_except(owner) | spec_all_new_bullets_except(owner)),
{
    all_bullets_except(owner) | all_new_bullets_except(owner)
}

/// The filter a turret carries: every settled bullet, and fresh bullets of
/// every other participant.
pub fn turret_filters(owner: Participant) -> (filter: u32)
    ensures
        filter == (ALL_BULLETS | spec_all_new_bullets_except(owner)),
{
    ALL_BULLETS | all_new_bullets_except(owner)
}

/// The collision filter of a freshly fired bullet: it reports contacts with
/// everything but its owner's tiles.
pub fn new_bullet_collision_filters(owner: Participant) -> (filter: u32)
    ensures
        filter == (BATTLEFIELD_ROOT | ALL_BULLETS | ALL_NEW_BULLETS | ALL_TURRETS
            | spec_all_tiles_except(owner)),
{
    BATTLEFIELD_ROOT | ALL_BULLETS | ALL_NEW_BULLETS | ALL_TURRETS | all_tiles_except(owner)
}

/// The solver filter of a freshly fired bullet: it bounces off the boundary
/// and other bullets, but passes through its owner's own fresh bullets so
/// burst pellets can clear the shared spawn point.
pub fn new_bullet_solver_filters(owner: Participant) -> (filter: u32)
    ensures
        filter == (BATTLEFIELD_ROOT | ALL_BULLETS | spec_all_new_bullets_except(owner)),
{
    BATTLEFIELD_ROOT | ALL_BULLETS | all_new_bullets_except(owner)
}

/// The collision filter of a settled bullet, applied once it has cleared
/// its spawn zone.
pub fn bullet_collision_filters(owner: Participant) -> (filter: u32)
    ensures
        filter == (BATTLEFIELD_ROOT | ALL_BULLETS | ALL_NEW_BULLETS | ALL_TURRETS
            | spec_all_tiles_except(owner)),
{
    BATTLEFIELD_ROOT | ALL_BULLETS | ALL_NEW_BULLETS | ALL_TURRETS | all_tiles_except(owner)
}

/// The solver filter of a settled bullet.
pub fn bullet_solver_filters(owner: Participant) -> (filter: u32)
    ensures
        filter == (BATTLEFIELD_ROOT | ALL_BULLETS | ALL_NEW_BULLETS | ALL_TURRETS),
{
    BATTLEFIELD_ROOT | ALL_BULLETS | ALL_NEW_BULLETS | ALL_TURRETS
}

} // verus!
