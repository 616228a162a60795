//! The stat value model: a persistent base with a transient bonus and
//! multiplier.
use vstd::prelude::*;

use crate::number::{in_range, saturate, StatNum};
use crate::ratio::{abs, fits_i64, sign, trunc_div, Ratio};
use crate::StatContainer;

verus! {

/// A stat that resets to its base value every iteration.
///
/// The total is `(base + bonus) * multiplier`: the bonus is always added
/// before the multiplier applies, whatever order the modifiers were applied
/// in. The product is rounded toward zero, then saturated at the bounds of
/// the base's kind.
#[derive(Clone, Copy, Debug, PartialEq)]
pub struct Stat<B: StatNum> {
    /// The persistent value of the stat, left alone by a reset.
    pub base: B,
    /// Added to `base` before the multiplier applies; reset to zero.
    pub bonus: B,
    /// Multiplies `base + bonus`; reset to one.
    pub multiplier: Ratio,
}

/// A bonus and a multiplier that can be applied to a [`Stat`] in one step.
#[derive(Clone, Copy, Debug, PartialEq)]
pub struct Modifier<B: StatNum> {
    /// Added to the bonus of a stat.
    pub bonus: B,
    /// Multiplies the multiplier of a stat.
    pub multiplier: Ratio,
}

/// Holds when the product of the two fractions' parts fits in `i64`.
pub open spec fn product_fits(a: Ratio, b: Ratio) -> bool {
    &&& fits_i64(a.numer() * b.numer())
    &&& fits_i64(a.denom() * b.denom())
}

/// The numerator of `1 + (m - 1) * weight`.
pub open spec fn scaled_numer(m: Ratio, weight: Ratio) -> int {
    m.denom() * weight.denom() + (m.numer() - m.denom()) * weight.numer()
}

/// Holds when `1 + (m - 1) * weight` can be formed without overflow.
pub open spec fn deviation_fits(m: Ratio, weight: Ratio) -> bool {
    &&& fits_i64(m.denom() * weight.denom())
    &&& fits_i64(scaled_numer(m, weight))
}

impl<B: StatNum> Stat<B> {
    /// `(base + bonus) * multiplier`, rounded toward zero.
    pub open spec fn total_value(self) -> int {
        trunc_div(
            (self.base.value() + self.bonus.value()) * self.multiplier.numer(),
            self.multiplier.denom(),
        )
    }

    /// Holds when `self` is `before` with its modifiers cleared.
    pub open spec fn is_reset_of(self, before: Stat<B>) -> bool {
        &&& self.base == before.base
        &&& self.bonus == B::from_int(0)
        &&& self.multiplier == Ratio::one_spec()
    }

    /// A stat with the given base, a zero bonus and a multiplier of one.
    pub fn new(base: B) -> (r: Stat<B>)
        ensures
            r.base == base,
            r.bonus == B::from_int(0),
            r.bonus.value() == 0,
            r.multiplier == Ratio::one_spec(),
            r.multiplier.numer() == 1,
            r.multiplier.denom() == 1,
    {
        proof {
            B::lemma_bounds();
        }
        Stat { base, bonus: B::from_i64(0), multiplier: Ratio::one() }
    }

    /// This stat with its bonus replaced.
    pub fn with_bonus(self, bonus: B) -> (r: Stat<B>)
        ensures
            r == (Stat { bonus, ..self }),
    {
        Stat { bonus, ..self }
    }

    /// This stat with its multiplier replaced.
    pub fn with_multiplier(self, multiplier: Ratio) -> (r: Stat<B>)
        ensures
            r == (Stat { multiplier, ..self }),
    {
        Stat { multiplier, ..self }
    }

    /// This stat with its bonus and multiplier replaced by the modifier's.
    pub fn with_modifier(self, modifier: Modifier<B>) -> (r: Stat<B>)
        ensures
            r == (Stat { bonus: modifier.bonus, multiplier: modifier.multiplier, ..self }),
    {
        Stat { bonus: modifier.bonus, multiplier: modifier.multiplier, ..self }
    }

    /// `self` with `delta` added to its bonus.
    pub open spec fn plus_bonus(self, delta: B) -> Stat<B> {
        Stat { bonus: B::from_int(self.bonus.value() + delta.value()), ..self }
    }

    /// `self` with its multiplier multiplied by `factor`.
    pub open spec fn times(self, factor: Ratio) -> Stat<B> {
        Stat { multiplier: self.multiplier.mul_spec(factor), ..self }
    }

    /// Adds the modifier's bonus to the bonus, and multiplies the multiplier
    /// by the modifier's multiplier.
    pub fn apply(&mut self, modifier: Modifier<B>)
        requires
            in_range::<B>(old(self).bonus.value() + modifier.bonus.value()),
            product_fits(old(self).multiplier, modifier.multiplier),
        ensures
            *final(self) == old(self).plus_bonus(modifier.bonus).times(modifier.multiplier),
            final(self).bonus.value() == old(self).bonus.value() + modifier.bonus.value(),
            final(self).multiplier.numer() == old(self).multiplier.numer()
                * modifier.multiplier.numer(),
            final(self).multiplier.denom() == old(self).multiplier.denom()
                * modifier.multiplier.denom(),
    {
        core::ops::AddAssign::add_assign(self, modifier.bonus);
        core::ops::MulAssign::mul_assign(self, modifier.multiplier);
    }

    /// Applies the modifier at the fraction `weight` of its strength: the
    /// bonus added is `modifier.bonus * weight` (rounded toward zero,
    /// saturated), and the multiplier is multiplied by
    /// `1 + (modifier.multiplier - 1) * weight`.
    pub fn apply_scaled(&mut self, modifier: Modifier<B>, weight: Ratio)
        requires
            in_range::<B>(old(self).bonus.value() + modifier.scaled_bonus(weight)),
            deviation_fits(modifier.multiplier, weight),
            fits_i64(old(self).multiplier.numer() * scaled_numer(modifier.multiplier, weight)),
            fits_i64(
                old(self).multiplier.denom() * (modifier.multiplier.denom() * weight.denom()),
            ),
        ensures
            final(self).base == old(self).base,
            final(self).bonus.value() == old(self).bonus.value() + modifier.scaled_bonus(weight),
            final(self).multiplier.numer() == old(self).multiplier.numer() * scaled_numer(
                modifier.multiplier,
                weight,
            ),
            final(self).multiplier.denom() == old(self).multiplier.denom() * (
            modifier.multiplier.denom() * weight.denom()),
    {
        let part = modifier.scaled(weight);
        self.apply(part);
    }

    /// The total value: `(base + bonus) * multiplier`, rounded toward zero
    /// and saturated at the bounds of `B`.
    pub fn total(&self) -> (r: B)
        requires
            in_range::<B>(self.base.value() + self.bonus.value()),
        ensures
            r.value() == saturate::<B>(self.total_value()),
    {
        proof {
            B::lemma_bounds();
            self.base.lemma_in_range();
            self.bonus.lemma_in_range();
        }
        let sum = self.base.to_i64() + self.bonus.to_i64();
        let scaled = self.multiplier.scale_int(sum);
        B::from_i128_saturating(scaled)
    }
}

impl<B: StatNum> StatContainer for Stat<B> {
    open spec fn reset_of(self) -> Stat<B> {
        Stat { base: self.base, bonus: B::from_int(0), multiplier: Ratio::one_spec() }
    }

    fn reset_modifiers(&mut self) {
        proof {
            B::lemma_bounds();
        }
        self.bonus = B::from_i64(0);
        self.multiplier = Ratio::one();
    }
}

impl<B: StatNum> Default for Stat<B> {
    fn default() -> (r: Stat<B>)
        ensures
            r.base == B::from_int(0),
            r.bonus == B::from_int(0),
            r.multiplier == Ratio::one_spec(),
    {
        proof {
            B::lemma_bounds();
        }
        Stat::new(B::from_i64(0))
    }
}

impl<B: StatNum> core::ops::AddAssign<B> for Stat<B> {
    /// Adds to the stat's bonus.
    fn add_assign(&mut self, delta: B)
        requires
            in_range::<B>(old(self).bonus.value() + delta.value()),
        ensures
            *final(self) == old(self).plus_bonus(delta),
            final(self).bonus.value() == old(self).bonus.value() + delta.value(),
    {
        proof {
            B::lemma_bounds();
            self.bonus.lemma_in_range();
            delta.lemma_in_range();
        }
        self.bonus = B::from_i64(self.bonus.to_i64() + delta.to_i64());
    }
}

impl<B: StatNum> core::ops::SubAssign<B> for Stat<B> {
    /// Subtracts from the stat's bonus.
    fn sub_assign(&mut self, delta: B)
        requires
            in_range::<B>(old(self).bonus.value() - delta.value()),
        ensures
            final(self).base == old(self).base,
            final(self).multiplier == old(self).multiplier,
            final(self).bonus.value() == old(self).bonus.value() - delta.value(),
    {
        proof {
            B::lemma_bounds();
            self.bonus.lemma_in_range();
            delta.lemma_in_range();
        }
        self.bonus = B::from_i64(self.bonus.to_i64() - delta.to_i64());
    }
}

impl<B: StatNum> core::ops::MulAssign<Ratio> for Stat<B> {
    /// Multiplies the stat's multiplier.
    fn mul_assign(&mut self, factor: Ratio)
        requires
            product_fits(old(self).multiplier, factor),
        ensures
            *final(self) == old(self).times(factor),
            final(self).multiplier.numer() == old(self).multiplier.numer() * factor.numer(),
            final(self).multiplier.denom() == old(self).multiplier.denom() * factor.denom(),
    {
        self.multiplier = self.multiplier.mul(factor);
    }
}

impl<B: StatNum> core::ops::DivAssign<Ratio> for Stat<B> {
    /// Divides the stat's multiplier. Dividing by zero is not allowed.
    fn div_assign(&mut self, divisor: Ratio)
        requires
            divisor.numer() != 0,
            fits_i64(sign(divisor.numer()) * old(self).multiplier.numer() * divisor.denom()),
            fits_i64(old(self).multiplier.denom() * abs(divisor.numer())),
        ensures
            final(self).base == old(self).base,
            final(self).bonus == old(self).bonus,
            final(self).multiplier.numer() == sign(divisor.numer()) * old(self).multiplier.numer()
                * divisor.denom(),
            final(self).multiplier.denom() == old(self).multiplier.denom() * abs(divisor.numer()),
    {
        self.multiplier = self.multiplier.div(divisor);
    }
}

impl<B: StatNum> Modifier<B> {
    /// `bonus * weight`, rounded toward zero and saturated at the bounds of
    /// `B`.
    pub open spec fn scaled_bonus(self, weight: Ratio) -> int {
        saturate::<B>(trunc_div(self.bonus.value() * weight.numer(), weight.denom()))
    }

    /// A modifier with the given bonus and multiplier.
    pub fn new(bonus: B, multiplier: Ratio) -> (r: Modifier<B>)
        ensures
            r.bonus == bonus,
            r.multiplier == multiplier,
    {
        Modifier { bonus, multiplier }
    }

    /// A modifier with the given bonus and a multiplier of one.
    pub fn from_bonus(bonus: B) -> (r: Modifier<B>)
        ensures
            r.bonus == bonus,
            r.multiplier == Ratio::one_spec(),
    {
        Modifier { bonus, multiplier: Ratio::one() }
    }

    /// A modifier with a zero bonus and the given multiplier.
    pub fn from_multiplier(multiplier: Ratio) -> (r: Modifier<B>)
        ensures
            r.bonus == B::from_int(0),
            r.multiplier == multiplier,
    {
        proof {
            B::lemma_bounds();
        }
        Modifier { bonus: B::from_i64(0), multiplier }
    }

    /// The modifier at the fraction `weight` of its strength: the bonus is
    /// `bonus * weight` (rounded toward zero, saturated) and the multiplier
    /// is `1 + (multiplier - 1) * weight`.
    pub fn scaled(self, weight: Ratio) -> (r: Modifier<B>)
        requires
            deviation_fits(self.multiplier, weight),
        ensures
            r.bonus.value() == self.scaled_bonus(weight),
            r.multiplier.numer() == scaled_numer(self.multiplier, weight),
            r.multiplier.denom() == self.multiplier.denom() * weight.denom(),
    {
        proof {
            B::lemma_bounds();
        }
        let bonus = weight.scale_int(self.bonus.to_i64());
        Modifier {
            bonus: B::from_i128_saturating(bonus),
            multiplier: self.multiplier.scale_deviation(weight),
        }
    }
}

impl<B: StatNum> Default for Modifier<B> {
    fn default() -> (r: Modifier<B>)
        ensures
            r.bonus == B::from_int(0),
            r.multiplier == Ratio::one_spec(),
    {
        proof {
            B::lemma_bounds();
        }
        Modifier { bonus: B::from_i64(0), multiplier: Ratio::one() }
    }
}

impl<B: StatNum> core::ops::AddAssign<B> for Modifier<B> {
    /// Adds to the modifier's bonus.
    fn add_assign(&mut self, delta: B)
        requires
            in_range::<B>(old(self).bonus.value() + delta.value()),
        ensures
            final(self).bonus.value() == old(self).bonus.value() + delta.value(),
            final(self).multiplier == old(self).multiplier,
    {
        proof {
            B::lemma_bounds();
            self.bonus.lemma_in_range();
            delta.lemma_in_range();
        }
        self.bonus = B::from_i64(self.bonus.to_i64() + delta.to_i64());
    }
}

impl<B: StatNum> core::ops::SubAssign<B> for Modifier<B> {
    /// Subtracts from the modifier's bonus.
    fn sub_assign(&mut self, delta: B)
        requires
            in_range::<B>(old(self).bonus.value() - delta.value()),
        ensures
            final(self).bonus.value() == old(self).bonus.value() - delta.value(),
            final(self).multiplier == old(self).multiplier,
    {
        proof {
            B::lemma_bounds();
            self.bonus.lemma_in_range();
            delta.lemma_in_range();
        }
        self.bonus = B::from_i64(self.bonus.to_i64() - delta.to_i64());
    }
}

impl<B: StatNum> core::ops::MulAssign<Ratio> for Modifier<B> {
    /// Multiplies the modifier's multiplier.
    fn mul_assign(&mut self, factor: Ratio)
        requires
            product_fits(old(self).multiplier, factor),
        ensures
            final(self).bonus == old(self).bonus,
            final(self).multiplier.numer() == old(self).multiplier.numer() * factor.numer(),
            final(self).multiplier.denom() == old(self).multiplier.denom() * factor.denom(),
    {
        self.multiplier = self.multiplier.mul(factor);
    }
}

impl<B: StatNum> core::ops::DivAssign<Ratio> for Modifier<B> {
    /// Divides the modifier's multiplier. Dividing by zero is not allowed.
    fn div_assign(&mut self, divisor: Ratio)
        requires
            divisor.numer() != 0,
            fits_i64(sign(divisor.numer()) * old(self).multiplier.numer() * divisor.denom()),
            fits_i64(old(self).multiplier.denom() * abs(divisor.numer())),
        ensures
            final(self).bonus == old(self).bonus,
            final(self).multiplier.numer() == sign(divisor.numer()) * old(self).multiplier.numer()
                * divisor.denom(),
            final(self).multiplier.denom() == old(self).multiplier.denom() * abs(divisor.numer()),
    {
        self.multiplier = self.multiplier.div(divisor);
    }
}

/// Resetting a stat twice in a row leaves it as a single reset does.
pub proof fn lemma_reset_idempotent<B: StatNum>(s: Stat<B>)
    ensures
        s.reset_of().reset_of() == s.reset_of(),
{
}

/// After a reset the bonus is zero, the multiplier is one, the base is kept,
/// and the total equals the base exactly.
pub proof fn lemma_reset_total_is_base<B: StatNum>(s: Stat<B>)
    ensures
        s.reset_of().base == s.base,
        s.reset_of().bonus.value() == 0,
        s.reset_of().multiplier.numer() == 1,
        s.reset_of().multiplier.denom() == 1,
        in_range::<B>(s.reset_of().base.value() + s.reset_of().bonus.value()),
        s.reset_of().total_value() == s.base.value(),
        saturate::<B>(s.reset_of().total_value()) == s.base.value(),
{
    B::lemma_bounds();
    B::lemma_from_int(0);
    Ratio::lemma_one_spec();
    s.base.lemma_in_range();
}

/// Adding to the bonus and multiplying the multiplier commute: the order in
/// which a frame's modifiers are applied does not change the stat, since the
/// total always adds before it multiplies.
pub proof fn lemma_accumulation_order_irrelevant<B: StatNum>(s: Stat<B>, delta: B, factor: Ratio)
    ensures
        s.plus_bonus(delta).times(factor) == s.times(factor).plus_bonus(delta),
        s.plus_bonus(delta).times(factor).total_value() == s.times(factor).plus_bonus(
            delta,
        ).total_value(),
{
}

} // verus!
