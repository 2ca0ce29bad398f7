//! The charge model: the value/level pair carried by turrets and
//! projectiles, and the pure rules that govern its growth, decay and
//! derived display scale.

use vstd::prelude::*;

verus! {

use vstd::arithmetic::power2::pow2;
use vstd::arithmetic::power2::lemma2_to64;
use vstd::arithmetic::power2::lemma_pow2_unfold;

/// Raw charge value granted to a turret that fires without having been hit
/// recently.
pub const BOOSTED_TURRET_CHARGE_VALUE: u64 = 16;

/// Display/collision radius units per charge level.
pub const BULLET_SIZE_FACTOR: u64 = 2;

/// Collider density units per charge level, feeding the host physics
/// engine's mass computation.
pub const BULLET_DENSITY_FACTOR: u64 = 5;

/// Ceiling of the base-two logarithm: the smallest `k` with `v <= pow2(k)`,
/// and `0` when `v <= 1`.
pub open spec fn log2_ceil(v: nat) -> nat
    decreases v,
{
    if v <= 1 {
        0
    } else {
        1 + log2_ceil((v / 2 + v % 2) as nat)
    }
}

/// The quantized tier of a charge value: `ceil(log2(value)) + 1`, so value 1
/// sits at tier 1.  Value 0 is never leveled — it is the destroy signal —
/// but for totality it maps to tier 1 as well.
pub open spec fn spec_level(value: u64) -> nat {
    1 + log2_ceil(value as nat)
}

/// The result of multiplying a charge value: the exact product, saturated to
/// the largest representable value on overflow.
pub open spec fn spec_saturating_mul(value: u64, factor: u64) -> u64 {
    if value * factor <= u64::MAX {
        (value * factor) as u64
    } else {
        u64::MAX
    }
}

proof fn lemma_log2_ceil_le(v: nat, k: nat)
    requires
        v <= pow2(k),
    ensures
        log2_ceil(v) <= k,
    decreases v,
{
    if v > 1 {
        if k == 0 {
            assert(pow2(0) == 1) by {
                lemma2_to64();
            }
        } else {
            assert(pow2(k) == 2 * pow2((k - 1) as nat)) by {
                lemma_pow2_unfold(k);
            }
            lemma_log2_ceil_le((v / 2 + v % 2) as nat, (k - 1) as nat);
        }
    }
}

/// Every 64-bit charge value sits within 64 halving steps of 1.
pub proof fn lemma_level_le_65(value: u64)
    ensures
        spec_level(value) <= 65,
{
    assert(pow2(64) == 0x10000000000000000) by {
        lemma2_to64();
    }
    lemma_log2_ceil_le(value as nat, 64);
}

proof fn lemma_log2_ceil_monotonic(v1: nat, v2: nat)
    requires
        v1 <= v2,
    ensures
        log2_ceil(v1) <= log2_ceil(v2),
    decreases v2,
{
    if v1 > 1 {
        lemma_log2_ceil_monotonic((v1 / 2 + v1 % 2) as nat, (v2 / 2 + v2 % 2) as nat);
    }
}

/// Law: the charge tier never decreases as the raw value grows.
pub proof fn lemma_level_monotonic(value1: u64, value2: u64)
    requires
        value1 <= value2,
    ensures
        spec_level(value1) <= spec_level(value2),
{
    lemma_log2_ceil_monotonic(value1 as nat, value2 as nat);
}

/// Law: the minimum positive charge value sits at the minimum tier.
pub proof fn lemma_level_of_one()
    ensures
        spec_level(1) == 1,
{
}

/// A turret's or projectile's accumulated strength.  `value` is the raw
/// amount; `level` is the tier derived from it, cached for rendering and
/// collision-radius purposes and recomputed by `update_level` whenever
/// `value` settles after a mutation.  `value == 0` marks the entity as
/// destroyed.
#[derive(Clone, Copy, Debug, PartialEq, Eq, Structural)]
pub struct Charge {
    pub value: u64,
    pub level: u64,
}

impl Charge {
    /// The cached tier matches the current value; holds between ticks, after
    /// the level-recompute pass has settled every mutation.
    pub open spec fn wf(self) -> bool {
        self.level == spec_level(self.value)
    }

    /// The tier of a raw charge value.
    pub fn calculate_level(value: u64) -> (level: u64)
        ensures
            level == spec_level(value),
    {
        proof {
            lemma_level_le_65(value);
        }
        let mut v: u64 = value;
        let mut level: u64 = 1;
        while v > 1
            invariant
                level >= 1,
                level + log2_ceil(v as nat) == 1 + log2_ceil(value as nat),
                log2_ceil(value as nat) <= 64,
            decreases v,
        {
            v = v / 2 + v % 2;
            level = level + 1;
        }
        level
    }

    /// A charge with the given value and a freshly computed level.
    pub fn from_value(value: u64) -> (charge: Self)
        ensures
            charge.value == value,
            charge.level == spec_level(value),
            charge.wf(),
    {
        let mut charge = Self { value, level: 1 };
        charge.update_level();
        charge
    }

    /// Recomputes the cached level from the current value.
    pub fn update_level(&mut self)
        ensures
            final(self).value == old(self).value,
            final(self).level == spec_level(old(self).value),
            final(self).wf(),
    {
        self.level = Self::calculate_level(self.value);
    }

    /// Multiplies the value by `factor`, saturating to the largest
    /// representable value instead of wrapping.  The cached level is left
    /// untouched: the generic level-recompute pass derives it afterwards,
    /// never from an intermediate overflowed state.
    pub fn multiply(&mut self, factor: u8)
        ensures
            final(self).value == spec_saturating_mul(old(self).value, factor as u64),
            final(self).level == old(self).level,
    {
        if let Some(value) = self.value.checked_mul(factor as u64) {
            self.value = value;
        } else {
            self.value = u64::MAX;
        }
    }

    /// Resets to the bare minimum charge.
    pub fn reset(&mut self)
        ensures
            final(self).value == 1,
            final(self).level == 1,
            final(self).wf(),
    {
        self.value = 1;
        self.level = 1;
        proof {
            lemma_level_of_one();
        }
    }

    /// Resets to the boosted baseline, granted to a turret that fires
    /// without having been hit recently.
    pub fn reset_boosted(&mut self)
        ensures
            final(self).value == BOOSTED_TURRET_CHARGE_VALUE,
            final(self).level == spec_level(BOOSTED_TURRET_CHARGE_VALUE),
            final(self).wf(),
    {
        self.value = BOOSTED_TURRET_CHARGE_VALUE;
        self.update_level();
    }

    /// The rendered diameter and collision radius of the charge indicator,
    /// in abstract display units; monotonic in the level.
    pub fn get_scale(&self) -> (scale: u64)
        requires
            self.level * BULLET_SIZE_FACTOR <= u64::MAX,
        ensures
            scale == self.level * BULLET_SIZE_FACTOR,
    {
        self.level * BULLET_SIZE_FACTOR
    }

    /// The collider density handed to the host physics engine, in abstract
    /// mass units; proportional to the level.
    pub fn get_density(&self) -> (density: u64)
        requires
            self.level * BULLET_DENSITY_FACTOR <= u64::MAX,
        ensures
            density == self.level * BULLET_DENSITY_FACTOR,
    {
        self.level * BULLET_DENSITY_FACTOR
    }
}

impl Default for Charge {
    /// The boosted baseline charge that a freshly built turret starts with.
    fn default() -> (charge: Self)
        ensures
            charge.value == BOOSTED_TURRET_CHARGE_VALUE,
            charge.level == spec_level(BOOSTED_TURRET_CHARGE_VALUE),
            charge.wf(),
    {
        Charge::from_value(BOOSTED_TURRET_CHARGE_VALUE)
    }
}

} // verus!
