use crate::ant::Ant;
use crate::utils::random::gen_range;
use vstd::prelude::*;

verus! {

/// The shortest lifetime that is drawn, in microseconds.
pub const MIN_LIFETIME: u64 = 24_000_000;

/// The longest lifetime that is drawn, in microseconds.
pub const MAX_LIFETIME: u64 = 99_000_000;

/// `ant` with the fresh lifetime `lifetime`, no longer due one.
pub open spec fn with_lifetime(ant: Ant, lifetime: u64) -> Ant {
    Ant { lifetime, reset_lifetime: false, ..ant }
}

/// Whether `after` is `before` after the lifetime reset: with some lifetime
/// of the configured range if it was due one, else unchanged.
pub open spec fn lifetime_reset_of(before: Ant, after: Ant) -> bool {
    if before.reset_lifetime {
        exists|lifetime: u64|
            MIN_LIFETIME <= lifetime <= MAX_LIFETIME && after == #[trigger] with_lifetime(
                before,
                lifetime,
            )
    } else {
        after == before
    }
}

/// The lifetime reset moves no ant, turns none and changes no goal, and
/// leaves every ant with a lifetime of the configured range where it was
/// due one.
pub proof fn lemma_lifetime_reset_keeps_place(before: Ant, after: Ant)
    requires
        lifetime_reset_of(before, after),
    ensures
        after.position == before.position,
        after.direction == before.direction,
        after.carrying_food == before.carrying_food,
        !before.reset_lifetime ==> after.lifetime == before.lifetime && !after.reset_lifetime,
        before.reset_lifetime ==> MIN_LIFETIME <= after.lifetime <= MAX_LIFETIME
            && !after.reset_lifetime,
{
}

/// Gives `ant` the fresh lifetime `lifetime`.
pub fn reset_lifetime(ant: &Ant, lifetime: u64) -> (after: Ant)
    ensures
        after == with_lifetime(*ant, lifetime),
{
    Ant {
        position: ant.position,
        direction: ant.direction,
        carrying_food: ant.carrying_food,
        lifetime,
        reset_lifetime: false,
    }
}

/// Draws a lifetime of the configured range.
pub fn draw_lifetime(rng: &mut rand::rngs::ThreadRng) -> (lifetime: u64)
    ensures
        MIN_LIFETIME <= lifetime <= MAX_LIFETIME,
{
    gen_range(rng, MIN_LIFETIME as i64, MAX_LIFETIME as i64) as u64
}

/// The lifetime reset of a tick: every ant that is due a fresh lifetime gets
/// one, drawn from `MIN_LIFETIME` to `MAX_LIFETIME`.
pub fn ant_lifetime_reset_system(ants: &mut Vec<Ant>)
    ensures
        final(ants)@.len() == old(ants)@.len(),
        forall|i: int|
            0 <= i < old(ants)@.len() ==> lifetime_reset_of(
                old(ants)@[i],
                #[trigger] final(ants)@[i],
            ),
{
    let mut rng = rand::thread_rng();
    let ghost before = ants@;
    let mut i: usize = 0;
    while i < ants.len()
        invariant
            i <= ants@.len(),
            ants@.len() == before.len(),
            forall|j: int| i <= j < before.len() ==> ants@[j] == before[j],
            forall|j: int| 0 <= j < i ==> lifetime_reset_of(before[j], #[trigger] ants@[j]),
        decreases ants@.len() - i,
    {
        let ant = ants[i];
        if ant.reset_lifetime {
            let lifetime = draw_lifetime(&mut rng);
            let after = reset_lifetime(&ant, lifetime);
            ants[i] = after;
        }
        i += 1;
    }
}

} // verus!
