//! The mathematical model of the simulation: the numeric state of one
//! living thing, the validity conditions checked at construction time, and
//! the per-tick transition (energy update, reproduction, death) on whole
//! populations, together with the lemmas the engine relies on.

use vstd::prelude::*;

verus! {

use crate::{MAX_AMOUNT, MIN_VIABLE_ENERGY, SCALE};
use vstd::arithmetic::div_mod::{
    lemma_div_is_ordered, lemma_div_multiples_vanish, lemma_div_multiples_vanish_fancy,
    lemma_div_pos_is_pos,
};

/// The numeric state of one living thing: its current energy, the energy it
/// must reach before it reproduces, and the fraction of that threshold a
/// newborn receives.  All three are fixed-point values scaled by `SCALE`.
pub struct EntityState {
    pub energy: i64,
    pub min_energy_son: i64,
    pub energy_son: i64,
}

/// The world parameters a `World` may be built with: a positive sun power
/// no larger than `MAX_AMOUNT`, and an entropy strictly between 0 and 1.
pub open spec fn valid_world_params(sun_power: int, entropy: int) -> bool {
    0 < sun_power <= MAX_AMOUNT && 0 < entropy < SCALE
}

/// The cross-parameter viability condition: a newborn built from these
/// reproduction parameters starts with at least `MIN_VIABLE_ENERGY`.
/// (`MIN_VIABLE_ENERGY * SCALE * SCALE` is the offspring-energy numerator
/// that corresponds to exactly one whole unit.)
pub open spec fn viable(min_energy_son: int, energy_son: int, entropy: int) -> bool {
    min_energy_son * energy_son * (SCALE - entropy) >= MIN_VIABLE_ENERGY * SCALE * SCALE
}

/// Every condition a living thing's state satisfies in a world with the
/// given entropy: positive energy, a positive bounded threshold, a share
/// strictly between 0 and 1, and the viability condition.
pub open spec fn entity_ok(e: EntityState, entropy: int) -> bool {
    &&& 0 < e.energy
    &&& 0 < e.min_energy_son <= MAX_AMOUNT
    &&& 0 < e.energy_son < SCALE
    &&& viable(e.min_energy_son as int, e.energy_son as int, entropy)
}

/// An upper bound on any thing's energy in a world with the given sun
/// power.  Energies start at `MAX_AMOUNT` at most, and one tick of the
/// update rule cannot push an energy beyond this bound.
pub open spec fn energy_cap(sun_power: int) -> int {
    if SCALE * sun_power > MAX_AMOUNT {
        SCALE * sun_power
    } else {
        MAX_AMOUNT as int
    }
}

/// Every thing of the population is well formed and within the energy cap.
pub open spec fn pop_ok(pop: Seq<EntityState>, sun_power: int, entropy: int) -> bool {
    forall|i: int|
        0 <= i < pop.len() ==> entity_ok(#[trigger] pop[i], entropy) && pop[i].energy
            <= energy_cap(sun_power)
}

/// The energy of one thing after the per-tick energy update: the full sun
/// power is added, then the entropy fraction of the result is dissipated
/// (rounding down).
pub open spec fn updated_energy(energy: int, sun_power: int, entropy: int) -> int {
    ((energy + sun_power) * (SCALE - entropy)) / (SCALE as int)
}

/// The energy a reproducing parent pays: the share of its threshold that is
/// transferred away (rounding down).
pub open spec fn repro_cost(min_energy_son: int, energy_son: int) -> int {
    (min_energy_son * energy_son) / (SCALE as int)
}

/// The starting energy of a newborn: the transferred share of the parent's
/// threshold, less the entropy of the transfer (rounding down).
pub open spec fn offspring_energy(min_energy_son: int, energy_son: int, entropy: int) -> int {
    (min_energy_son * energy_son * (SCALE - entropy)) / (SCALE * SCALE)
}

/// Whether a thing reproduces this tick: its updated energy has reached its
/// reproduction threshold.
pub open spec fn reproduces(e: EntityState, sun_power: int, entropy: int) -> bool {
    updated_energy(e.energy as int, sun_power, entropy) >= e.min_energy_son
}

/// A thing's energy at the end of the tick: the updated energy, less the
/// reproduction cost if it reproduced.
pub open spec fn end_energy(e: EntityState, sun_power: int, entropy: int) -> int {
    if reproduces(e, sun_power, entropy) {
        updated_energy(e.energy as int, sun_power, entropy) - repro_cost(
            e.min_energy_son as int,
            e.energy_son as int,
        )
    } else {
        updated_energy(e.energy as int, sun_power, entropy)
    }
}

/// Whether a thing dies this tick: its energy at the end of the tick is
/// exhausted.
pub open spec fn dies(e: EntityState, sun_power: int, entropy: int) -> bool {
    end_energy(e, sun_power, entropy) <= 0
}

/// The state of a surviving thing after the tick: same reproduction
/// parameters, energy as at the end of the tick.
pub open spec fn survivor(e: EntityState, sun_power: int, entropy: int) -> EntityState {
    EntityState {
        energy: end_energy(e, sun_power, entropy) as i64,
        min_energy_son: e.min_energy_son,
        energy_son: e.energy_son,
    }
}

/// The state of the newborn of a reproducing parent: the parent's
/// reproduction parameters, and the offspring starting energy.
pub open spec fn offspring(e: EntityState, entropy: int) -> EntityState {
    EntityState {
        energy: offspring_energy(e.min_energy_son as int, e.energy_son as int, entropy) as i64,
        min_energy_son: e.min_energy_son,
        energy_son: e.energy_son,
    }
}

/// The things of the snapshot that survive the tick, in snapshot order,
/// each in its end-of-tick state.
pub open spec fn survivors(pop: Seq<EntityState>, sun_power: int, entropy: int) -> Seq<
    EntityState,
>
    decreases pop.len(),
{
    if pop.len() == 0 {
        Seq::empty()
    } else if dies(pop[0], sun_power, entropy) {
        survivors(pop.drop_first(), sun_power, entropy)
    } else {
        seq![survivor(pop[0], sun_power, entropy)] + survivors(
            pop.drop_first(),
            sun_power,
            entropy,
        )
    }
}

/// The things of the snapshot that die during the tick, in snapshot order,
/// each in its pre-tick state.
pub open spec fn casualties(pop: Seq<EntityState>, sun_power: int, entropy: int) -> Seq<
    EntityState,
>
    decreases pop.len(),
{
    if pop.len() == 0 {
        Seq::empty()
    } else if dies(pop[0], sun_power, entropy) {
        seq![pop[0]] + casualties(pop.drop_first(), sun_power, entropy)
    } else {
        casualties(pop.drop_first(), sun_power, entropy)
    }
}

/// The newborns produced during the tick, in the order of their parents in
/// the snapshot.
pub open spec fn newborns(pop: Seq<EntityState>, sun_power: int, entropy: int) -> Seq<
    EntityState,
>
    decreases pop.len(),
{
    if pop.len() == 0 {
        Seq::empty()
    } else if reproduces(pop[0], sun_power, entropy) {
        seq![offspring(pop[0], entropy)] + newborns(pop.drop_first(), sun_power, entropy)
    } else {
        newborns(pop.drop_first(), sun_power, entropy)
    }
}

/// The whole population after one tick: the survivors in snapshot order,
/// with the newborns appended.
pub open spec fn tick(pop: Seq<EntityState>, sun_power: int, entropy: int) -> Seq<EntityState> {
    survivors(pop, sun_power, entropy) + newborns(pop, sun_power, entropy)
}

/// The population after `n` ticks.
pub open spec fn run(pop: Seq<EntityState>, sun_power: int, entropy: int, n: nat) -> Seq<
    EntityState,
>
    decreases n,
{
    if n == 0 {
        pop
    } else {
        tick(run(pop, sun_power, entropy, (n - 1) as nat), sun_power, entropy)
    }
}

/// The energy update keeps a positive bounded energy nonnegative and below
/// the world's energy cap.
pub(crate) proof fn lemma_updated_energy_bounds(energy: int, sun_power: int, entropy: int)
    requires
        valid_world_params(sun_power, entropy),
        0 < energy <= energy_cap(sun_power),
    ensures
        0 <= updated_energy(energy, sun_power, entropy) <= energy_cap(sun_power),
        0 <= (energy + sun_power) * (SCALE - entropy) <= energy_cap(sun_power) * SCALE,
        energy_cap(sun_power) <= SCALE * MAX_AMOUNT,
{
    let cap = energy_cap(sun_power);
    let num = (energy + sun_power) * (SCALE - entropy);
    assert(0 <= num && num <= cap * SCALE) by (nonlinear_arith)
        requires
            num == (energy + sun_power) * (SCALE - entropy),
            0 < energy <= cap,
            0 < sun_power,
            0 < entropy < SCALE,
            SCALE * sun_power <= cap,
    ;
    lemma_div_pos_is_pos(num, SCALE as int);
    lemma_div_is_ordered(num, cap * SCALE, SCALE as int);
    assert(cap * SCALE == (SCALE as int) * cap) by (nonlinear_arith);
    lemma_div_multiples_vanish(cap, SCALE as int);
}

/// The reproduction cost is nonnegative and strictly below the
/// reproduction threshold, so a reproducing parent keeps a positive energy.
pub(crate) proof fn lemma_repro_cost_bounds(min_energy_son: int, energy_son: int)
    requires
        0 < min_energy_son,
        0 < energy_son < SCALE,
    ensures
        0 <= repro_cost(min_energy_son, energy_son) < min_energy_son,
{
    let num = min_energy_son * energy_son;
    assert(0 <= num && num <= (SCALE as int) * (min_energy_son - 1) + (SCALE - 1))
        by (nonlinear_arith)
        requires
            num == min_energy_son * energy_son,
            0 < min_energy_son,
            0 < energy_son < SCALE,
    ;
    lemma_div_pos_is_pos(num, SCALE as int);
    lemma_div_is_ordered(num, (SCALE as int) * (min_energy_son - 1) + (SCALE - 1), SCALE as int);
    lemma_div_multiples_vanish_fancy(min_energy_son - 1, SCALE - 1, SCALE as int);
}

/// A newborn built from viable parameters starts with at least the minimum
/// viable energy, and never above `MAX_AMOUNT`.
pub proof fn lemma_offspring_energy_bounds(min_energy_son: int, energy_son: int, entropy: int)
    requires
        0 < min_energy_son <= MAX_AMOUNT,
        0 < energy_son < SCALE,
        0 < entropy < SCALE,
        viable(min_energy_son, energy_son, entropy),
    ensures
        MIN_VIABLE_ENERGY <= offspring_energy(min_energy_son, energy_son, entropy) <= MAX_AMOUNT,
{
    let s2 = (SCALE * SCALE) as int;
    let num = min_energy_son * energy_son * (SCALE - entropy);
    assert(num <= s2 * MAX_AMOUNT) by (nonlinear_arith)
        requires
            num == min_energy_son * energy_son * (SCALE - entropy),
            0 < min_energy_son <= MAX_AMOUNT,
            0 < energy_son < SCALE,
            0 < entropy < SCALE,
            s2 == SCALE * SCALE,
    ;
    assert(MIN_VIABLE_ENERGY * SCALE * SCALE == s2 * MIN_VIABLE_ENERGY) by (nonlinear_arith)
        requires
            s2 == SCALE * SCALE,
    ;
    lemma_div_is_ordered(s2 * MIN_VIABLE_ENERGY, num, s2);
    lemma_div_is_ordered(num, s2 * MAX_AMOUNT, s2);
    lemma_div_multiples_vanish(MIN_VIABLE_ENERGY as int, s2);
    lemma_div_multiples_vanish(MAX_AMOUNT as int, s2);
}

/// The end-of-tick energy of a well-formed thing stays within the energy
/// cap, and a reproducing parent always survives the tick.
pub(crate) proof fn lemma_end_energy_bounds(e: EntityState, sun_power: int, entropy: int)
    requires
        valid_world_params(sun_power, entropy),
        entity_ok(e, entropy),
        e.energy <= energy_cap(sun_power),
    ensures
        0 <= end_energy(e, sun_power, entropy) <= energy_cap(sun_power),
        reproduces(e, sun_power, entropy) ==> 0 < end_energy(e, sun_power, entropy),
{
    lemma_updated_energy_bounds(e.energy as int, sun_power, entropy);
    if reproduces(e, sun_power, entropy) {
        lemma_repro_cost_bounds(e.min_energy_son as int, e.energy_son as int);
    }
}

/// Dropping the first thing of a well-formed population leaves a
/// well-formed population.
proof fn lemma_pop_ok_drop_first(pop: Seq<EntityState>, sun_power: int, entropy: int)
    requires
        pop_ok(pop, sun_power, entropy),
        pop.len() > 0,
    ensures
        pop_ok(pop.drop_first(), sun_power, entropy),
{
    assert forall|i: int| 0 <= i < pop.drop_first().len() implies entity_ok(
        #[trigger] pop.drop_first()[i],
        entropy,
    ) && pop.drop_first()[i].energy <= energy_cap(sun_power) by {
        assert(pop.drop_first()[i] == pop[i + 1]);
    }
}

/// Two well-formed populations concatenate to a well-formed population.
proof fn lemma_pop_ok_concat(
    a: Seq<EntityState>,
    b: Seq<EntityState>,
    sun_power: int,
    entropy: int,
)
    requires
        pop_ok(a, sun_power, entropy),
        pop_ok(b, sun_power, entropy),
    ensures
        pop_ok(a + b, sun_power, entropy),
{
    assert forall|i: int| 0 <= i < (a + b).len() implies entity_ok(
        #[trigger] (a + b)[i],
        entropy,
    ) && (a + b)[i].energy <= energy_cap(sun_power) by {
        if i < a.len() {
            assert((a + b)[i] == a[i]);
        } else {
            assert((a + b)[i] == b[i - a.len()]);
        }
    }
}

/// The survivors of a well-formed population are well formed.
proof fn lemma_survivors_ok(pop: Seq<EntityState>, sun_power: int, entropy: int)
    requires
        valid_world_params(sun_power, entropy),
        pop_ok(pop, sun_power, entropy),
    ensures
        pop_ok(survivors(pop, sun_power, entropy), sun_power, entropy),
    decreases pop.len(),
{
    if pop.len() == 0 {
    } else {
        lemma_pop_ok_drop_first(pop, sun_power, entropy);
        lemma_survivors_ok(pop.drop_first(), sun_power, entropy);
        if !dies(pop[0], sun_power, entropy) {
            lemma_end_energy_bounds(pop[0], sun_power, entropy);
            let s0 = survivor(pop[0], sun_power, entropy);
            assert(pop_ok(seq![s0], sun_power, entropy));
            lemma_pop_ok_concat(
                seq![s0],
                survivors(pop.drop_first(), sun_power, entropy),
                sun_power,
                entropy,
            );
        }
    }
}

/// The newborns of a well-formed population are well formed.
proof fn lemma_newborns_ok(pop: Seq<EntityState>, sun_power: int, entropy: int)
    requires
        valid_world_params(sun_power, entropy),
        pop_ok(pop, sun_power, entropy),
    ensures
        pop_ok(newborns(pop, sun_power, entropy), sun_power, entropy),
    decreases pop.len(),
{
    if pop.len() == 0 {
    } else {
        lemma_pop_ok_drop_first(pop, sun_power, entropy);
        lemma_newborns_ok(pop.drop_first(), sun_power, entropy);
        if reproduces(pop[0], sun_power, entropy) {
            lemma_offspring_energy_bounds(
                pop[0].min_energy_son as int,
                pop[0].energy_son as int,
                entropy,
            );
            let c0 = offspring(pop[0], entropy);
            assert(pop_ok(seq![c0], sun_power, entropy));
            lemma_pop_ok_concat(
                seq![c0],
                newborns(pop.drop_first(), sun_power, entropy),
                sun_power,
                entropy,
            );
        }
    }
}

/// One tick of a well-formed population yields a well-formed population:
/// every surviving or newborn thing has positive energy within the cap and
/// keeps viable reproduction parameters.
pub proof fn lemma_tick_preserves_ok(pop: Seq<EntityState>, sun_power: int, entropy: int)
    requires
        valid_world_params(sun_power, entropy),
        pop_ok(pop, sun_power, entropy),
    ensures
        pop_ok(tick(pop, sun_power, entropy), sun_power, entropy),
{
    lemma_survivors_ok(pop, sun_power, entropy);
    lemma_newborns_ok(pop, sun_power, entropy);
    lemma_pop_ok_concat(
        survivors(pop, sun_power, entropy),
        newborns(pop, sun_power, entropy),
        sun_power,
        entropy,
    );
}

/// Conservation of the population over one tick: every thing of the
/// snapshot is accounted for, either as a survivor or as a casualty, and
/// the post-tick population is exactly the survivors plus the newborns:
/// nothing is silently lost or duplicated.
pub proof fn lemma_tick_conserves_population(pop: Seq<EntityState>, sun_power: int, entropy: int)
    ensures
        survivors(pop, sun_power, entropy).len() + casualties(pop, sun_power, entropy).len()
            == pop.len(),
        tick(pop, sun_power, entropy).len() == survivors(pop, sun_power, entropy).len()
            + newborns(pop, sun_power, entropy).len(),
        newborns(pop, sun_power, entropy).len() <= pop.len(),
    decreases pop.len(),
{
    if pop.len() == 0 {
    } else {
        lemma_tick_conserves_population(pop.drop_first(), sun_power, entropy);
    }
}

/// The viability guarantee: whenever reproduction occurs in a well-formed
/// population, the newborn starts with at least the minimum viable energy:
/// no thing is ever born already dead.
pub proof fn lemma_newborns_viable(pop: Seq<EntityState>, sun_power: int, entropy: int)
    requires
        valid_world_params(sun_power, entropy),
        pop_ok(pop, sun_power, entropy),
    ensures
        forall|j: int|
            0 <= j < newborns(pop, sun_power, entropy).len() ==> #[trigger] newborns(
                pop,
                sun_power,
                entropy,
            )[j].energy >= MIN_VIABLE_ENERGY,
{
    assert forall|j: int| 0 <= j < newborns(pop, sun_power, entropy).len() implies #[trigger] newborns(
        pop,
        sun_power,
        entropy,
    )[j].energy >= MIN_VIABLE_ENERGY by {
        lemma_newborn_at_index_viable(pop, sun_power, entropy, j);
    }
}

/// The newborn at one index of the newborn list starts viable.
proof fn lemma_newborn_at_index_viable(
    pop: Seq<EntityState>,
    sun_power: int,
    entropy: int,
    j: int,
)
    requires
        valid_world_params(sun_power, entropy),
        pop_ok(pop, sun_power, entropy),
        0 <= j < newborns(pop, sun_power, entropy).len(),
    ensures
        newborns(pop, sun_power, entropy)[j].energy >= MIN_VIABLE_ENERGY,
    decreases pop.len(),
{
    lemma_pop_ok_drop_first(pop, sun_power, entropy);
    let rest = newborns(pop.drop_first(), sun_power, entropy);
    if reproduces(pop[0], sun_power, entropy) {
        let head = seq![offspring(pop[0], entropy)];
        assert(newborns(pop, sun_power, entropy) == head + rest);
        if j == 0 {
            lemma_offspring_energy_bounds(
                pop[0].min_energy_son as int,
                pop[0].energy_son as int,
                entropy,
            );
            assert((head + rest)[0] == offspring(pop[0], entropy));
        } else {
            lemma_newborn_at_index_viable(pop.drop_first(), sun_power, entropy, j - 1);
            assert((head + rest)[j] == rest[j - 1]);
        }
    } else {
        assert(newborns(pop, sun_power, entropy) == rest);
        lemma_newborn_at_index_viable(pop.drop_first(), sun_power, entropy, j);
    }
}

/// Appending one thing to the snapshot appends its survivor (if it
/// survives) to the survivors.
pub(crate) proof fn lemma_survivors_push(pop: Seq<EntityState>, x: EntityState, sun_power: int, entropy: int)
    ensures
        survivors(pop.push(x), sun_power, entropy) == survivors(pop, sun_power, entropy) + (
        if dies(x, sun_power, entropy) {
            Seq::<EntityState>::empty()
        } else {
            seq![survivor(x, sun_power, entropy)]
        }),
    decreases pop.len(),
{
    let tail = if dies(x, sun_power, entropy) {
        Seq::<EntityState>::empty()
    } else {
        seq![survivor(x, sun_power, entropy)]
    };
    if pop.len() == 0 {
        reveal_with_fuel(survivors, 2);
        assert(pop.push(x)[0] == x);
        assert(pop.push(x).drop_first() =~= Seq::<EntityState>::empty());
        assert(survivors(pop, sun_power, entropy) =~= Seq::<EntityState>::empty());
        assert(survivors(pop.push(x), sun_power, entropy) =~= survivors(pop, sun_power, entropy)
            + tail);
    } else {
        let pd = pop.drop_first();
        assert(pop.push(x)[0] == pop[0]);
        assert(pop.push(x).drop_first() =~= pd.push(x));
        lemma_survivors_push(pd, x, sun_power, entropy);
        assert(survivors(pd.push(x), sun_power, entropy) == survivors(pd, sun_power, entropy)
            + tail);
        if dies(pop[0], sun_power, entropy) {
            assert(survivors(pop.push(x), sun_power, entropy) == survivors(
                pd.push(x),
                sun_power,
                entropy,
            ));
            assert(survivors(pop, sun_power, entropy) == survivors(pd, sun_power, entropy));
        } else {
            let head = seq![survivor(pop[0], sun_power, entropy)];
            assert(survivors(pop.push(x), sun_power, entropy) == head + survivors(
                pd.push(x),
                sun_power,
                entropy,
            ));
            assert(survivors(pop, sun_power, entropy) == head + survivors(pd, sun_power, entropy));
            assert(head + (survivors(pd, sun_power, entropy) + tail) =~= (head + survivors(
                pd,
                sun_power,
                entropy,
            )) + tail);
        }
    }
}

/// Appending one thing to the snapshot appends its newborn (if it
/// reproduces) to the newborns.
pub(crate) proof fn lemma_newborns_push(pop: Seq<EntityState>, x: EntityState, sun_power: int, entropy: int)
    ensures
        newborns(pop.push(x), sun_power, entropy) == newborns(pop, sun_power, entropy) + (
        if reproduces(x, sun_power, entropy) {
            seq![offspring(x, entropy)]
        } else {
            Seq::<EntityState>::empty()
        }),
    decreases pop.len(),
{
    let tail = if reproduces(x, sun_power, entropy) {
        seq![offspring(x, entropy)]
    } else {
        Seq::<EntityState>::empty()
    };
    if pop.len() == 0 {
        reveal_with_fuel(newborns, 2);
        assert(pop.push(x)[0] == x);
        assert(pop.push(x).drop_first() =~= Seq::<EntityState>::empty());
        assert(newborns(pop, sun_power, entropy) =~= Seq::<EntityState>::empty());
        assert(newborns(pop.push(x), sun_power, entropy) =~= newborns(pop, sun_power, entropy)
            + tail);
    } else {
        let pd = pop.drop_first();
        assert(pop.push(x)[0] == pop[0]);
        assert(pop.push(x).drop_first() =~= pd.push(x));
        lemma_newborns_push(pd, x, sun_power, entropy);
        assert(newborns(pd.push(x), sun_power, entropy) == newborns(pd, sun_power, entropy)
            + tail);
        if reproduces(pop[0], sun_power, entropy) {
            let head = seq![offspring(pop[0], entropy)];
            assert(newborns(pop.push(x), sun_power, entropy) == head + newborns(
                pd.push(x),
                sun_power,
                entropy,
            ));
            assert(newborns(pop, sun_power, entropy) == head + newborns(pd, sun_power, entropy));
            assert(head + (newborns(pd, sun_power, entropy) + tail) =~= (head + newborns(
                pd,
                sun_power,
                entropy,
            )) + tail);
        } else {
            assert(newborns(pop.push(x), sun_power, entropy) == newborns(
                pd.push(x),
                sun_power,
                entropy,
            ));
            assert(newborns(pop, sun_power, entropy) == newborns(pd, sun_power, entropy));
        }
    }
}

} // verus!
