//! Core simulation of a four-participant arena game.
//!
//! Each participant owns a quadrant of a shared tile grid and a turret with an
//! escalating charge.  Abstract trigger events feed the turrets' firing
//! queues; fired projectiles capture tiles and damage enemy turrets through
//! collision pairs reported by a host physics engine.  This crate holds the
//! deterministic rules of that game — charge growth and decay, shot
//! scheduling, combat resolution, eliminations and restarts — as verified
//! functions over explicit data tables.  Rendering, physics integration and
//! input remain with the host shell.

pub mod battlefield;
pub mod charge;
pub mod collision_groups;
pub mod effects;
pub mod panel;
pub mod participant;
