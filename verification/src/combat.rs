//! Damage, stagger and death: the rules every hit goes through.
//!
//! Every hit in the game arrives at one judgement, so the rules about when a
//! hit lands, when it shakes the target, when it staggers and when it
//! destroys are stated once. The amounts are the caller's, in health and
//! stability points; it reports what they come to, and the judgement says
//! what the hit does.

use vstd::prelude::*;

verus! {

/// What the caller's amounts say about one hit.
#[derive(Debug, Clone, Copy, PartialEq, Eq, Default, Structural)]
pub struct HitFacts {
    /// The target is alive.
    pub alive: bool,
    /// The target is inside an invulnerability window.
    pub invulnerable: bool,
    /// The target is already staggered.
    pub staggered: bool,
    /// The hit carries impact that counts against the target's balance.
    pub jolts: bool,
    /// With this hit's impact, the target's balance reaches its limit.
    pub breaks_balance: bool,
    /// This hit's damage, after any vulnerability, empties the target's
    /// health.
    pub lethal: bool,
}

/// What one hit does.
#[derive(Debug, Clone, Copy, PartialEq, Eq, Default, Structural)]
pub struct HitOutcome {
    /// The damage is taken and the hit reported.
    pub lands: bool,
    /// The impact is added to the target's balance loss.
    pub jolts: bool,
    /// The target is staggered and the stagger reported.
    pub staggers: bool,
    /// The target is destroyed and its destruction reported.
    pub destroys: bool,
}

/// The rules of a hit. A dead target, or one inside its invulnerability
/// window, takes nothing. Otherwise the hit lands; its impact counts only
/// against a target that is not already staggered, which is the
/// single-stagger rule; it staggers when that impact breaks the target's
/// balance; and it destroys when it empties the target's health, whether or
/// not it also staggers.
pub open spec fn hit_outcome(f: HitFacts) -> HitOutcome {
    if !f.alive || f.invulnerable {
        HitOutcome { lands: false, jolts: false, staggers: false, destroys: false }
    } else {
        let jolts = f.jolts && !f.staggered;
        HitOutcome { lands: true, jolts, staggers: jolts && f.breaks_balance, destroys: f.lethal }
    }
}

/// Judge one hit.
pub fn judge_hit(facts: HitFacts) -> (r: HitOutcome)
    ensures
        r == hit_outcome(facts),
        r.lands == (facts.alive && !facts.invulnerable),
        r.destroys == (r.lands && facts.lethal),
        r.jolts == (r.lands && facts.jolts && !facts.staggered),
        r.staggers == (r.jolts && facts.breaks_balance),
{
    if !facts.alive || facts.invulnerable {
        return HitOutcome { lands: false, jolts: false, staggers: false, destroys: false };
    }
    let jolts = facts.jolts && !facts.staggered;
    HitOutcome { lands: true, jolts, staggers: jolts && facts.breaks_balance, destroys: facts.lethal }
}

/// A dead target, or one inside its invulnerability window, takes nothing:
/// no damage, no impact, no stagger and no second destruction.
pub proof fn lemma_nothing_lands_on_the_dead_or_shielded(f: HitFacts)
    requires
        !f.alive || f.invulnerable,
    ensures
        hit_outcome(f) == (HitOutcome { lands: false, jolts: false, staggers: false, destroys: false }),
{
}

/// A staggered target cannot be staggered again until it recovers, however
/// many hits arrive.
pub proof fn lemma_a_stagger_is_not_retriggered(f: HitFacts)
    requires
        f.staggered,
    ensures
        !hit_outcome(f).staggers,
        !hit_outcome(f).jolts,
{
}

/// Only a hit that lands can stagger or destroy, and a killing blow can also
/// be the staggering blow.
pub proof fn lemma_a_hit_that_lands_decides_the_rest(f: HitFacts)
    ensures
        hit_outcome(f).staggers ==> hit_outcome(f).lands,
        hit_outcome(f).destroys ==> hit_outcome(f).lands,
        (f.alive && !f.invulnerable && !f.staggered && f.jolts && f.breaks_balance && f.lethal)
            ==> hit_outcome(f).staggers && hit_outcome(f).destroys,
{
}

/// What a hit does, in terms of the facts alone: it lands exactly on a live,
/// unshielded target; a landing hit that empties the target's health
/// destroys it, staggered or not; its impact counts exactly when it carries
/// impact and the target is not already staggered; and it staggers exactly
/// when that impact breaks the target's balance.
pub proof fn lemma_what_a_hit_does(f: HitFacts)
    ensures
        hit_outcome(f).lands <==> (f.alive && !f.invulnerable),
        hit_outcome(f).destroys <==> (f.alive && !f.invulnerable && f.lethal),
        hit_outcome(f).jolts <==> (f.alive && !f.invulnerable && f.jolts && !f.staggered),
        hit_outcome(f).staggers <==> (f.alive && !f.invulnerable && f.jolts && !f.staggered
            && f.breaks_balance),
        (f.alive && !f.invulnerable && f.staggered && f.lethal) ==> hit_outcome(f).destroys,
{
}

} // verus!
