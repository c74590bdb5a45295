//! A closed ecological simulation: a `World` with an energy inflow ("sun
//! power") and a dissipation fraction ("entropy") holds a population of
//! living things.  Each tick every thing gains energy from the sun, loses a
//! fraction of it to entropy, reproduces once if its energy reaches its
//! threshold, and dies when its energy is exhausted.
//!
//! All quantities are fixed-point numbers: `SCALE` units stand for one whole
//! unit of energy (or for the fraction 1.0), so `2100` means 2.1 and `500`
//! means 0.5.

use vstd::prelude::*;

mod rules;
mod thing;

pub use thing::{states, Moss, Thing};

pub use rules::{
    casualties, dies, end_energy, energy_cap, entity_ok, newborns, offspring, offspring_energy,
    pop_ok, repro_cost, reproduces, run, survivor, survivors, tick, updated_energy,
    valid_world_params, viable, EntityState,
};
pub use rules::{
    lemma_newborns_viable, lemma_offspring_energy_bounds, lemma_tick_conserves_population,
    lemma_tick_preserves_ok,
};

verus! {

/// Fixed-point unit: `SCALE` stands for 1.0.
pub const SCALE: i64 = 1000;

/// Largest accepted sun power, energy or reproduction threshold (in
/// `SCALE`-ths of a unit).  A bound on the inputs keeps every intermediate
/// product of the tick rules inside `i64`.
pub const MAX_AMOUNT: i64 = 1_000_000_000_000;

/// The least energy a newborn thing may start with: below one whole unit it
/// would be born already dead.
pub const MIN_VIABLE_ENERGY: i64 = SCALE;

/// Default energy inflow per thing per tick (2.1 units).
pub const DEFAULT_SUN_POWER: i64 = 2100;

/// Default fraction of energy dissipated per tick (0.1).
pub const DEFAULT_ENTROPY: i64 = 100;

/// Sun power must be strictly above this value.
pub const MIN_SUN_POWER: i64 = 0;

/// Entropy must be strictly above this value.
pub const MIN_ENTROPY: i64 = 0;

/// Entropy must be strictly below this value (1.0).
pub const MAX_ENTROPY: i64 = SCALE;

/// Default starting energy of a seeded thing (20.0 units).
pub const DEFAULT_THING_ENERGY: i64 = 20_000;

/// Default reproduction threshold of a seeded thing (21.0 units).
pub const DEFAULT_THING_MIN_ENERGY_SON: i64 = 21_000;

/// Default fraction of the threshold passed to a newborn (0.5).
pub const DEFAULT_THING_ENERGY_SON: i64 = 500;

/// A constructor precondition failed.  Each variant names the offending
/// parameter and carries the rejected value.
#[derive(Clone, Copy, Debug, PartialEq, Eq, Structural)]
pub enum ConfigError {
    /// Sun power was not strictly positive.
    SunPowerTooLow(i64),
    /// Entropy was not strictly positive.
    EntropyTooLow(i64),
    /// Entropy was not strictly below 1.0.
    EntropyTooHigh(i64),
    /// A thing's starting energy was not strictly positive.
    EnergyTooLow(i64),
    /// A thing's reproduction threshold was not strictly positive.
    MinEnergySonTooLow(i64),
    /// A thing's reproduction share was not strictly positive.
    EnergySonTooLow(i64),
    /// A thing's reproduction share was not strictly below 1.0.
    EnergySonTooHigh(i64),
    /// The reproduction parameters would produce a newborn with less than
    /// the minimum viable energy.
    EnergySonNotViable(i64),
}

/// The shared environment: the sun power and entropy it was validated
/// with, and the living population.  The two parameters are fixed for the
/// world's lifetime; the population changes only through seeding and
/// through `step`.
pub struct World<T> {
    sun_power: i64,
    entropy: i64,
    things: Vec<T>,
}

impl<T: Thing> World<T> {
    /// The sun power this world was built with.
    pub closed spec fn spec_sun_power(&self) -> i64 {
        self.sun_power
    }

    /// The entropy this world was built with.
    pub closed spec fn spec_entropy(&self) -> i64 {
        self.entropy
    }

    /// The states of the living population, in order.
    pub closed spec fn pop(&self) -> Seq<EntityState> {
        states(self.things@)
    }

    /// The invariant every reachable world satisfies: validated parameters
    /// and a well-formed population (positive energies within the energy
    /// cap, viable reproduction parameters).
    pub open spec fn wf(&self) -> bool {
        valid_world_params(self.spec_sun_power() as int, self.spec_entropy() as int) && pop_ok(
            self.pop(),
            self.spec_sun_power() as int,
            self.spec_entropy() as int,
        )
    }

    /// Builds a world with an empty population, validating the parameters
    /// eagerly: the sun power must be positive and the entropy strictly
    /// between 0 and 1.  The first precondition that fails is reported.
    /// Sun powers above `MAX_AMOUNT` lie outside the fixed-point range and
    /// are excluded by precondition.
    pub fn new(sun_power: i64, entropy: i64) -> (r: Result<World<T>, ConfigError>)
        requires
            sun_power <= MAX_AMOUNT,
        ensures
            r is Ok <==> (MIN_SUN_POWER < sun_power && MIN_ENTROPY < entropy && entropy
                < MAX_ENTROPY),
            r matches Ok(w) ==> w.wf() && w.spec_sun_power() == sun_power && w.spec_entropy()
                == entropy && w.pop() == Seq::<EntityState>::empty(),
            sun_power <= MIN_SUN_POWER ==> r == Err::<World<T>, ConfigError>(
                ConfigError::SunPowerTooLow(sun_power),
            ),
            sun_power > MIN_SUN_POWER && entropy <= MIN_ENTROPY ==> r == Err::<World<T>, ConfigError>(
                ConfigError::EntropyTooLow(entropy),
            ),
            sun_power > MIN_SUN_POWER && entropy > MIN_ENTROPY && entropy >= MAX_ENTROPY ==> r
                == Err::<World<T>, ConfigError>(ConfigError::EntropyTooHigh(entropy)),
    {
        if sun_power <= MIN_SUN_POWER {
            return Err(ConfigError::SunPowerTooLow(sun_power));
        }
        if entropy <= MIN_ENTROPY {
            return Err(ConfigError::EntropyTooLow(entropy));
        }
        if entropy >= MAX_ENTROPY {
            return Err(ConfigError::EntropyTooHigh(entropy));
        }
        let w = World { sun_power, entropy, things: Vec::new() };
        proof {
            assert(w.pop() =~= Seq::<EntityState>::empty());
        }
        Ok(w)
    }

    /// The sun power this world was built with.
    pub fn sun_power(&self) -> (r: i64)
        ensures
            r == self.spec_sun_power(),
    {
        self.sun_power
    }

    /// The entropy this world was built with.
    pub fn entropy(&self) -> (r: i64)
        ensures
            r == self.spec_entropy(),
    {
        self.entropy
    }

    /// Read access to the living population, in order.
    pub fn things(&self) -> (r: &Vec<T>)
        ensures
            states(r@) == self.pop(),
    {
        &self.things
    }

    /// The number of living things.
    pub fn population_size(&self) -> (r: usize)
        ensures
            r == self.pop().len(),
    {
        self.things.len()
    }

    /// Advances the world by `n_steps` ticks and reports the resulting
    /// population size.  The inflow allocation is a fixed per-thing gain:
    /// every living thing receives the full sun power each tick, and the
    /// same deterministic rule is applied to every thing.  If no tick is
    /// requested, or the population is already empty so nothing can happen,
    /// the world is unchanged and `None` ("not advanced") is reported
    /// instead of an ambiguous size.
    pub fn step(&mut self, n_steps: u32) -> (r: Option<usize>)
        requires
            old(self).wf(),
        ensures
            final(self).wf(),
            final(self).spec_sun_power() == old(self).spec_sun_power(),
            final(self).spec_entropy() == old(self).spec_entropy(),
            n_steps == 0 || old(self).pop().len() == 0 ==> r == None::<usize> && final(self).pop()
                == old(self).pop(),
            n_steps > 0 && old(self).pop().len() > 0 ==> final(self).pop() == run(
                old(self).pop(),
                old(self).spec_sun_power() as int,
                old(self).spec_entropy() as int,
                n_steps as nat,
            ) && r == Some(final(self).pop().len() as usize),
    {
        if n_steps == 0 || self.things.len() == 0 {
            return None;
        }
        let ghost pop0 = self.pop();
        let ghost sun = self.spec_sun_power() as int;
        let ghost ent = self.spec_entropy() as int;
        let mut k: u32 = 0;
        while k < n_steps
            invariant
                k <= n_steps,
                self.spec_sun_power() as int == sun,
                self.spec_entropy() as int == ent,
                valid_world_params(sun, ent),
                pop_ok(self.pop(), sun, ent),
                self.pop() == run(pop0, sun, ent, k as nat),
            decreases n_steps - k,
        {
            let stepped = thing::tick_things(&self.things, self.sun_power, self.entropy);
            proof {
                rules::lemma_tick_preserves_ok(self.pop(), sun, ent);
            }
            self.things = stepped;
            k += 1;
        }
        Some(self.things.len())
    }
}

impl World<Moss> {
    /// Inserts a moss with the given parameters into the population,
    /// validating them (including the offspring-viability condition
    /// against this world's entropy) and failing fast with the first
    /// offending one.  On failure the world is unchanged.  Energies and
    /// thresholds above `MAX_AMOUNT` lie outside the fixed-point range and
    /// are excluded by precondition.
    pub fn seed(&mut self, energy: i64, min_energy_son: i64, energy_son: i64) -> (r: Result<
        (),
        ConfigError,
    >)
        requires
            old(self).wf(),
            energy <= MAX_AMOUNT,
            min_energy_son <= MAX_AMOUNT,
        ensures
            final(self).wf(),
            final(self).spec_sun_power() == old(self).spec_sun_power(),
            final(self).spec_entropy() == old(self).spec_entropy(),
            r is Ok <==> (0 < energy && 0 < min_energy_son && 0 < energy_son < SCALE && viable(
                min_energy_son as int,
                energy_son as int,
                old(self).spec_entropy() as int,
            )),
            r is Ok ==> final(self).pop() == old(self).pop().push(
                EntityState { energy, min_energy_son, energy_son },
            ),
            r is Err ==> final(self).pop() == old(self).pop(),
            energy <= 0 ==> r == Err::<(), ConfigError>(ConfigError::EnergyTooLow(energy)),
            energy > 0 && min_energy_son <= 0 ==> r == Err::<(), ConfigError>(
                ConfigError::MinEnergySonTooLow(min_energy_son),
            ),
            energy > 0 && min_energy_son > 0 && energy_son <= 0 ==> r == Err::<(), ConfigError>(
                ConfigError::EnergySonTooLow(energy_son),
            ),
            energy > 0 && min_energy_son > 0 && energy_son >= SCALE ==> r == Err::<(), ConfigError>(
                ConfigError::EnergySonTooHigh(energy_son),
            ),
            energy > 0 && min_energy_son > 0 && 0 < energy_son < SCALE && !viable(
                min_energy_son as int,
                energy_son as int,
                old(self).spec_entropy() as int,
            ) ==> r == Err::<(), ConfigError>(ConfigError::EnergySonNotViable(energy_son)),
    {
        let ghost pop0 = self.pop();
        match Moss::checked(self.entropy, energy, min_energy_son, energy_son) {
            Ok(m) => {
                let ghost ms = m.st();
                self.things.push(m);
                proof {
                    assert(self.pop() =~= pop0.push(ms));
                    assert forall|i: int| 0 <= i < self.pop().len() implies entity_ok(
                        #[trigger] self.pop()[i],
                        self.spec_entropy() as int,
                    ) && self.pop()[i].energy <= energy_cap(self.spec_sun_power() as int) by {
                        if i < pop0.len() {
                            assert(self.pop()[i] == pop0[i]);
                        } else {
                            assert(self.pop()[i] == ms);
                        }
                    }
                }
                Ok(())
            },
            Err(e) => Err(e),
        }
    }

    /// Inserts the default moss: the reference starting population of one
    /// thing with the default energy and reproduction parameters.
    pub fn add_first(&mut self) -> (r: Result<(), ConfigError>)
        requires
            old(self).wf(),
        ensures
            final(self).wf(),
            final(self).spec_sun_power() == old(self).spec_sun_power(),
            final(self).spec_entropy() == old(self).spec_entropy(),
            r is Ok <==> viable(
                DEFAULT_THING_MIN_ENERGY_SON as int,
                DEFAULT_THING_ENERGY_SON as int,
                old(self).spec_entropy() as int,
            ),
            r is Ok ==> final(self).pop() == old(self).pop().push(
                EntityState {
                    energy: DEFAULT_THING_ENERGY,
                    min_energy_son: DEFAULT_THING_MIN_ENERGY_SON,
                    energy_son: DEFAULT_THING_ENERGY_SON,
                },
            ),
            r is Err ==> final(self).pop() == old(self).pop() && r == Err::<(), ConfigError>(
                ConfigError::EnergySonNotViable(DEFAULT_THING_ENERGY_SON),
            ),
    {
        self.seed(DEFAULT_THING_ENERGY, DEFAULT_THING_MIN_ENERGY_SON, DEFAULT_THING_ENERGY_SON)
    }
}

} // verus!
