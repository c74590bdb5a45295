//! The living things of the simulation: the capability contract every kind
//! of thing satisfies, the reference kind `Moss`, and the engine that
//! advances a whole population by one tick.

use vstd::prelude::*;

verus! {

use crate::rules::{
    dies, entity_ok, lemma_end_energy_bounds, lemma_newborns_push, lemma_offspring_energy_bounds,
    lemma_repro_cost_bounds, lemma_survivors_push, lemma_updated_energy_bounds, newborns,
    offspring, pop_ok, survivor, survivors, tick, updated_energy, valid_world_params,
    viable, EntityState,
};
use crate::{ConfigError, World, MAX_AMOUNT, MIN_VIABLE_ENERGY, SCALE};

/// The contract every kind of living thing satisfies.  The stepping engine
/// reads a thing only through these operations, so new kinds can be added
/// without touching the engine.
pub trait Thing: Sized {
    /// The numeric state of this thing, as the tick rules see it.
    spec fn st(&self) -> EntityState;

    /// Current stored energy.
    fn energy(&self) -> (r: i64)
        ensures
            r == self.st().energy,
    ;

    /// Energy this thing must reach before it reproduces.
    fn min_energy_son(&self) -> (r: i64)
        ensures
            r == self.st().min_energy_son,
    ;

    /// Fraction of the reproduction threshold a newborn receives.
    fn energy_son(&self) -> (r: i64)
        ensures
            r == self.st().energy_son,
    ;

    /// A thing of the same kind with the same reproduction parameters and
    /// the given energy: this is how the engine applies the energy update
    /// to a survivor and how it builds a newborn.
    fn with_energy(&self, energy: i64) -> (r: Self)
        ensures
            r.st() == (EntityState { energy, ..self.st() }),
    ;
}

/// The states of a population of things, in order.
pub open spec fn states<T: Thing>(things: Seq<T>) -> Seq<EntityState> {
    things.map_values(|t: T| t.st())
}

/// The reference kind: a sessile thing with no behaviour beyond the
/// default energy lifecycle.
pub struct Moss {
    energy: i64,
    min_energy_son: i64,
    energy_son: i64,
}

impl Thing for Moss {
    closed spec fn st(&self) -> EntityState {
        EntityState {
            energy: self.energy,
            min_energy_son: self.min_energy_son,
            energy_son: self.energy_son,
        }
    }

    fn energy(&self) -> i64 {
        self.energy
    }

    fn min_energy_son(&self) -> i64 {
        self.min_energy_son
    }

    fn energy_son(&self) -> i64 {
        self.energy_son
    }

    fn with_energy(&self, energy: i64) -> Moss {
        Moss { energy, min_energy_son: self.min_energy_son, energy_son: self.energy_son }
    }
}

impl Moss {
    /// Builds a `Moss` for a world with the given (already validated)
    /// entropy, checking every construction precondition in order and
    /// reporting the first that fails.
    pub(crate) fn checked(
        entropy: i64,
        energy: i64,
        min_energy_son: i64,
        energy_son: i64,
    ) -> (r: Result<Moss, ConfigError>)
        requires
            0 < entropy < SCALE,
            energy <= MAX_AMOUNT,
            min_energy_son <= MAX_AMOUNT,
        ensures
            r is Ok <==> (0 < energy && 0 < min_energy_son && 0 < energy_son < SCALE && viable(
                min_energy_son as int,
                energy_son as int,
                entropy as int,
            )),
            r matches Ok(m) ==> m.st() == (EntityState { energy, min_energy_son, energy_son }),
            energy <= 0 ==> r == Err::<Moss, ConfigError>(ConfigError::EnergyTooLow(energy)),
            energy > 0 && min_energy_son <= 0 ==> r == Err::<Moss, ConfigError>(
                ConfigError::MinEnergySonTooLow(min_energy_son),
            ),
            energy > 0 && min_energy_son > 0 && energy_son <= 0 ==> r == Err::<Moss, ConfigError>(
                ConfigError::EnergySonTooLow(energy_son),
            ),
            energy > 0 && min_energy_son > 0 && energy_son >= SCALE ==> r == Err::<
                Moss,
                ConfigError,
            >(ConfigError::EnergySonTooHigh(energy_son)),
            energy > 0 && min_energy_son > 0 && 0 < energy_son < SCALE && !viable(
                min_energy_son as int,
                energy_son as int,
                entropy as int,
            ) ==> r == Err::<Moss, ConfigError>(ConfigError::EnergySonNotViable(energy_son)),
    {
        if energy <= 0 {
            return Err(ConfigError::EnergyTooLow(energy));
        }
        if min_energy_son <= 0 {
            return Err(ConfigError::MinEnergySonTooLow(min_energy_son));
        }
        if energy_son <= 0 {
            return Err(ConfigError::EnergySonTooLow(energy_son));
        }
        if energy_son >= SCALE {
            return Err(ConfigError::EnergySonTooHigh(energy_son));
        }
        proof {
            assert(0 <= min_energy_son * energy_son <= MAX_AMOUNT * SCALE) by (nonlinear_arith)
                requires
                    0 < min_energy_son <= MAX_AMOUNT,
                    0 < energy_son < SCALE,
            ;
            assert(0 <= min_energy_son * energy_son * (SCALE - entropy) <= MAX_AMOUNT * SCALE
                * SCALE) by (nonlinear_arith)
                requires
                    0 < min_energy_son <= MAX_AMOUNT,
                    0 < energy_son < SCALE,
                    0 < entropy < SCALE,
            ;
        }
        if min_energy_son * energy_son * (SCALE - entropy) < MIN_VIABLE_ENERGY * SCALE * SCALE {
            return Err(ConfigError::EnergySonNotViable(energy_son));
        }
        Ok(Moss { energy, min_energy_son, energy_son })
    }

    /// Builds a `Moss` living under the given world's entropy, validating
    /// every parameter (including the offspring-viability condition against
    /// the world's entropy) and failing fast with the first offending one.
    pub fn new(world: &World<Moss>, energy: i64, min_energy_son: i64, energy_son: i64) -> (r:
        Result<Moss, ConfigError>)
        requires
            world.wf(),
            energy <= MAX_AMOUNT,
            min_energy_son <= MAX_AMOUNT,
        ensures
            r is Ok <==> (0 < energy && 0 < min_energy_son && 0 < energy_son < SCALE && viable(
                min_energy_son as int,
                energy_son as int,
                world.spec_entropy() as int,
            )),
            r matches Ok(m) ==> m.st() == (EntityState { energy, min_energy_son, energy_son }),
            energy <= 0 ==> r == Err::<Moss, ConfigError>(ConfigError::EnergyTooLow(energy)),
            energy > 0 && min_energy_son <= 0 ==> r == Err::<Moss, ConfigError>(
                ConfigError::MinEnergySonTooLow(min_energy_son),
            ),
            energy > 0 && min_energy_son > 0 && energy_son <= 0 ==> r == Err::<Moss, ConfigError>(
                ConfigError::EnergySonTooLow(energy_son),
            ),
            energy > 0 && min_energy_son > 0 && energy_son >= SCALE ==> r == Err::<
                Moss,
                ConfigError,
            >(ConfigError::EnergySonTooHigh(energy_son)),
            energy > 0 && min_energy_son > 0 && 0 < energy_son < SCALE && !viable(
                min_energy_son as int,
                energy_son as int,
                world.spec_entropy() as int,
            ) ==> r == Err::<Moss, ConfigError>(ConfigError::EnergySonNotViable(energy_son)),
    {
        Moss::checked(world.entropy(), energy, min_energy_son, energy_son)
    }
}

/// Advances a population by one tick.  The snapshot semantics of the tick
/// come for free: the new population is built aside and committed at the
/// end, so things created or removed during the tick never act within it.
pub(crate) fn tick_things<T: Thing>(things: &Vec<T>, sun_power: i64, entropy: i64) -> (r: Vec<T>)
    requires
        valid_world_params(sun_power as int, entropy as int),
        pop_ok(states(things@), sun_power as int, entropy as int),
    ensures
        states(r@) == tick(states(things@), sun_power as int, entropy as int),
{
    let ghost pop = states(things@);
    let ghost sun = sun_power as int;
    let ghost ent = entropy as int;
    let mut next: Vec<T> = Vec::new();
    let mut born: Vec<T> = Vec::new();
    let mut i: usize = 0;
    while i < things.len()
        invariant
            i <= things@.len(),
            pop == states(things@),
            sun == sun_power as int,
            ent == entropy as int,
            valid_world_params(sun, ent),
            pop_ok(pop, sun, ent),
            states(next@) == survivors(pop.take(i as int), sun, ent),
            states(born@) == newborns(pop.take(i as int), sun, ent),
        decreases things@.len() - i,
    {
        let ghost gi = i as int;
        let ghost next_prev = next@;
        let ghost born_prev = born@;
        let t = &things[i];
        proof {
            assert(pop[gi] == t.st());
            assert(entity_ok(pop[gi], ent) && pop[gi].energy <= crate::rules::energy_cap(sun));
            lemma_updated_energy_bounds(t.st().energy as int, sun, ent);
            lemma_end_energy_bounds(t.st(), sun, ent);
            assert(pop.take(gi + 1) =~= pop.take(gi).push(pop[gi]));
            lemma_survivors_push(pop.take(gi), pop[gi], sun, ent);
            lemma_newborns_push(pop.take(gi), pop[gi], sun, ent);
        }
        let e = t.energy();
        let u = ((e + sun_power) * (SCALE - entropy)) / SCALE;
        proof {
            assert(u == updated_energy(t.st().energy as int, sun, ent));
        }
        let mes = t.min_energy_son();
        if u >= mes {
            // This thing reproduces: the parent pays the transferred share
            // and the newborn starts with the share less the entropy of the
            // transfer.
            let son = t.energy_son();
            proof {
                lemma_repro_cost_bounds(mes as int, son as int);
                lemma_offspring_energy_bounds(mes as int, son as int, ent);
                assert(0 <= mes * son <= MAX_AMOUNT * SCALE) by (nonlinear_arith)
                    requires
                        0 < mes <= MAX_AMOUNT,
                        0 < son < SCALE,
                ;
                assert(0 <= mes * son * (SCALE - entropy) <= MAX_AMOUNT * SCALE * SCALE)
                    by (nonlinear_arith)
                    requires
                        0 < mes <= MAX_AMOUNT,
                        0 < son < SCALE,
                        0 < entropy < SCALE,
                ;
            }
            let cost = (mes * son) / SCALE;
            let parent = t.with_energy(u - cost);
            let child = t.with_energy((mes * son * (SCALE - entropy)) / (SCALE * SCALE));
            proof {
                assert(parent.st() == survivor(pop[gi], sun, ent));
                assert(child.st() == offspring(pop[gi], ent));
            }
            next.push(parent);
            born.push(child);
            proof {
                assert(states(next@) =~= states(next_prev).push(survivor(pop[gi], sun, ent)));
                assert(states(born@) =~= states(born_prev).push(offspring(pop[gi], ent)));
                assert(states(next@) =~= survivors(pop.take(gi + 1), sun, ent));
                assert(states(born@) =~= newborns(pop.take(gi + 1), sun, ent));
            }
        } else if u > 0 {
            // This thing survives without reproducing.
            let kept = t.with_energy(u);
            proof {
                assert(kept.st() == survivor(pop[gi], sun, ent));
            }
            next.push(kept);
            proof {
                assert(states(next@) =~= states(next_prev).push(survivor(pop[gi], sun, ent)));
                assert(states(next@) =~= survivors(pop.take(gi + 1), sun, ent));
                assert(states(born@) =~= newborns(pop.take(gi + 1), sun, ent));
            }
        } else {
            // This thing's energy is exhausted: it dies and is dropped from
            // the population.
            proof {
                assert(dies(pop[gi], sun, ent));
                assert(states(next@) =~= survivors(pop.take(gi + 1), sun, ent));
                assert(states(born@) =~= newborns(pop.take(gi + 1), sun, ent));
            }
        }
        i += 1;
    }
    proof {
        assert(pop.take(pop.len() as int) =~= pop);
    }
    let ghost surv = next@;
    let ghost babs = born@;
    next.append(&mut born);
    proof {
        assert(next@ == surv + babs);
        assert(states(surv + babs) =~= states(surv) + states(babs));
        assert(states(next@) =~= tick(pop, sun, ent));
    }
    next
}

} // verus!
