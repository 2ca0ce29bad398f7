//! Trigger event translation.  The side-panel minigame drops balls past
//! obstacles; when a ball touches a classified zone, the contact becomes an
//! abstract trigger event for that ball's participant.  Only that
//! translation is game logic — the panel's physics stays with the host.

use vstd::prelude::*;

verus! {

use crate::participant::Participant;

/// What a trigger zone does to the turret of the participant whose ball
/// touched it.
#[derive(Clone, Copy, Debug, PartialEq, Eq, Structural)]
pub enum TriggerType {
    /// Multiply the turret's live charge by the zone's factor.
    Multiply(u8),
    /// Queue the live charge as a stream of burst pellets.
    BurstShot,
    /// Queue the live charge as one charged shot.
    ChargedShot,
}

/// The sole input from the side-panel minigame into the core.
#[derive(Clone, Copy, Debug, PartialEq, Eq, Structural)]
pub struct TriggerEvent {
    pub participant: Participant,
    pub trigger_type: TriggerType,
}

/// Which side panel a participant's balls fall in.
#[derive(Clone, Copy, Debug, PartialEq, Eq, Structural)]
pub enum PanelRootSide {
    Left,
    Right,
}

impl PanelRootSide {
    pub open spec fn spec_for_participant(participant: Participant) -> PanelRootSide {
        match participant {
            Participant::A | Participant::B => PanelRootSide::Left,
            Participant::C | Participant::D => PanelRootSide::Right,
        }
    }

    /// The panel a participant's balls belong to.
    pub fn for_participant(participant: Participant) -> (side: Self)
        ensures
            side == Self::spec_for_participant(participant),
    {
        match participant {
            Participant::A | Participant::B => Self::Left,
            Participant::C | Participant::D => Self::Right,
        }
    }
}

/// One side of a panel contact pair, as the host physics engine reports it.
#[derive(Clone, Copy, Debug, PartialEq, Eq, Structural)]
pub enum PanelBody {
    /// A classified zone at the bottom of a panel.
    TriggerZone(TriggerType),
    /// A falling ball owned by a participant.
    WorkerBall(Participant),
    /// Anything else in the panel: an obstacle, a wall.
    Other,
}

pub open spec fn spec_zone_of(body: PanelBody) -> Option<TriggerType> {
    match body {
        PanelBody::TriggerZone(trigger_type) => Some(trigger_type),
        _ => None,
    }
}

pub open spec fn spec_ball_of(body: PanelBody) -> Option<Participant> {
    match body {
        PanelBody::WorkerBall(participant) => Some(participant),
        _ => None,
    }
}

/// The event a contact-begin pair produces: the zone's classification paired
/// with the ball's participant, or nothing when the pair holds no zone or no
/// ball.
pub open spec fn spec_trigger_event(a: PanelBody, b: PanelBody) -> Option<TriggerEvent> {
    let zone = if spec_zone_of(a) is Some {
        spec_zone_of(a)
    } else {
        spec_zone_of(b)
    };
    let ball = if spec_ball_of(a) is Some {
        spec_ball_of(a)
    } else {
        spec_ball_of(b)
    };
    match (zone, ball) {
        (Some(trigger_type), Some(participant)) => Some(
            TriggerEvent { participant, trigger_type },
        ),
        _ => None,
    }
}

/// Translates one contact-begin pair from a panel into a trigger event.
/// A pair without both a zone and a ball produces nothing.
pub fn trigger_event(a: &PanelBody, b: &PanelBody) -> (event: Option<TriggerEvent>)
    ensures
        event == spec_trigger_event(*a, *b),
{
    let trigger_type = match a {
        PanelBody::TriggerZone(trigger_type) => *trigger_type,
        _ => match b {
            PanelBody::TriggerZone(trigger_type) => *trigger_type,
            _ => {
                return None;
            },
        },
    };
    let participant = match a {
        PanelBody::WorkerBall(participant) => *participant,
        _ => match b {
            PanelBody::WorkerBall(participant) => *participant,
            _ => {
                return None;
            },
        },
    };
    Some(TriggerEvent { participant, trigger_type })
}

} // verus!
