//! The four fixed game identities and the keyed container that holds one
//! value per identity.

use vstd::prelude::*;

verus! {

/// A game participant.  It's not called player since the game is not
/// interactive.  The four identities are fixed: never created or destroyed
/// at runtime, used as a key everywhere.
#[derive(Clone, Copy, Debug, PartialEq, Eq, Structural)]
pub enum Participant {
    A,
    B,
    C,
    D,
}

impl Default for Participant {
    fn default() -> (participant: Self)
        ensures
            participant == Participant::A,
    {
        Participant::A
    }
}

/// A struct that maps a value to each participant: array-of-4 semantics
/// with keyed access and no insertion or removal.
#[derive(Clone, Copy, Debug)]
pub struct ParticipantMap<T> {
    pub a: T,
    pub b: T,
    pub c: T,
    pub d: T,
}

impl<T> ParticipantMap<T> {
    /// The value this map holds for `participant`.
    pub open spec fn spec_get(self, participant: Participant) -> T {
        match participant {
            Participant::A => self.a,
            Participant::B => self.b,
            Participant::C => self.c,
            Participant::D => self.d,
        }
    }

    /// This map with the slot for `participant` replaced by `value`.
    pub open spec fn spec_set(self, participant: Participant, value: T) -> ParticipantMap<T> {
        match participant {
            Participant::A => ParticipantMap { a: value, ..self },
            Participant::B => ParticipantMap { b: value, ..self },
            Participant::C => ParticipantMap { c: value, ..self },
            Participant::D => ParticipantMap { d: value, ..self },
        }
    }

    pub fn new(a: T, b: T, c: T, d: T) -> (map: Self)
        ensures
            map == (ParticipantMap { a, b, c, d }),
    {
        Self { a, b, c, d }
    }

    pub fn get(&self, participant: Participant) -> (value: &T)
        ensures
            *value == self.spec_get(participant),
    {
        match participant {
            Participant::A => &self.a,
            Participant::B => &self.b,
            Participant::C => &self.c,
            Participant::D => &self.d,
        }
    }

    pub fn set(&mut self, participant: Participant, new_value: T)
        ensures
            *final(self) == old(self).spec_set(participant, new_value),
    {
        match participant {
            Participant::A => self.a = new_value,
            Participant::B => self.b = new_value,
            Participant::C => self.c = new_value,
            Participant::D => self.d = new_value,
        }
    }

    /// Applies `f` to each slot in turn, producing a map of the results.
    pub fn map<U, F: Fn(T) -> U>(self, f: F) -> (result: ParticipantMap<U>)
        requires
            call_requires(f, (self.a,)),
            call_requires(f, (self.b,)),
            call_requires(f, (self.c,)),
            call_requires(f, (self.d,)),
        ensures
            call_ensures(f, (self.a,), result.a),
            call_ensures(f, (self.b,), result.b),
            call_ensures(f, (self.c,), result.c),
            call_ensures(f, (self.d,), result.d),
    {
        ParticipantMap { a: f(self.a), b: f(self.b), c: f(self.c), d: f(self.d) }
    }
}

impl<T: Copy> ParticipantMap<T> {
    /// A map holding the same value for every participant.
    pub fn splat(x: T) -> (map: Self)
        ensures
            map == (ParticipantMap { a: x, b: x, c: x, d: x }),
    {
        Self { a: x, b: x, c: x, d: x }
    }
}

/// Holds of two maps that agree on every slot except possibly the one for
/// `participant`.
pub open spec fn spec_unchanged_except<T>(
    pre: ParticipantMap<T>,
    post: ParticipantMap<T>,
    participant: Participant,
) -> bool {
    &&& participant != Participant::A ==> post.a == pre.a
    &&& participant != Participant::B ==> post.b == pre.b
    &&& participant != Participant::C ==> post.c == pre.c
    &&& participant != Participant::D ==> post.d == pre.d
}

} // verus!
