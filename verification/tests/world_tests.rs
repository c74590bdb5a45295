use world::{
    ConfigError, Moss, Thing, World, DEFAULT_ENTROPY, DEFAULT_SUN_POWER, DEFAULT_THING_ENERGY,
    DEFAULT_THING_ENERGY_SON, DEFAULT_THING_MIN_ENERGY_SON, MAX_ENTROPY, MIN_ENTROPY,
    MIN_SUN_POWER, MIN_VIABLE_ENERGY, SCALE,
};

#[test]
fn new_world() {
    let w = World::<Moss>::new(DEFAULT_SUN_POWER, DEFAULT_ENTROPY).unwrap();
    assert_eq!(w.sun_power(), DEFAULT_SUN_POWER);
    assert_eq!(w.entropy(), DEFAULT_ENTROPY);
}

#[test]
fn entropy_min_world() {
    let r = World::<Moss>::new(DEFAULT_SUN_POWER, MIN_ENTROPY);
    assert_eq!(r.err(), Some(ConfigError::EntropyTooLow(MIN_ENTROPY)));
}

#[test]
fn entropy_max_world() {
    let r = World::<Moss>::new(DEFAULT_SUN_POWER, MAX_ENTROPY);
    assert_eq!(r.err(), Some(ConfigError::EntropyTooHigh(MAX_ENTROPY)));
}

#[test]
fn sun_power_min_world() {
    let r = World::<Moss>::new(MIN_SUN_POWER, DEFAULT_ENTROPY);
    assert_eq!(r.err(), Some(ConfigError::SunPowerTooLow(MIN_SUN_POWER)));
}

#[test]
fn new_thing() {
    let w = World::<Moss>::new(DEFAULT_SUN_POWER, DEFAULT_ENTROPY).unwrap();
    let m = Moss::new(
        &w,
        DEFAULT_THING_ENERGY,
        DEFAULT_THING_MIN_ENERGY_SON,
        DEFAULT_THING_ENERGY_SON,
    )
    .unwrap();
    assert_eq!(m.energy(), DEFAULT_THING_ENERGY);
    assert_eq!(m.min_energy_son(), DEFAULT_THING_MIN_ENERGY_SON);
    assert_eq!(m.energy_son(), DEFAULT_THING_ENERGY_SON);
}

#[test]
fn energy_thing_min() {
    let w = World::<Moss>::new(DEFAULT_SUN_POWER, DEFAULT_ENTROPY).unwrap();
    let r = Moss::new(&w, 0, DEFAULT_THING_MIN_ENERGY_SON, DEFAULT_THING_ENERGY_SON);
    assert_eq!(r.err(), Some(ConfigError::EnergyTooLow(0)));
}

#[test]
fn min_energy_son_thing_min() {
    let w = World::<Moss>::new(DEFAULT_SUN_POWER, DEFAULT_ENTROPY).unwrap();
    let r = Moss::new(&w, DEFAULT_THING_ENERGY, 0, DEFAULT_THING_ENERGY_SON);
    assert_eq!(r.err(), Some(ConfigError::MinEnergySonTooLow(0)));
}

#[test]
fn energy_son_thing_min() {
    let w = World::<Moss>::new(DEFAULT_SUN_POWER, DEFAULT_ENTROPY).unwrap();
    let r = Moss::new(&w, DEFAULT_THING_ENERGY, DEFAULT_THING_MIN_ENERGY_SON, 0);
    assert_eq!(r.err(), Some(ConfigError::EnergySonTooLow(0)));
}

#[test]
fn energy_son_thing_max() {
    let w = World::<Moss>::new(DEFAULT_SUN_POWER, DEFAULT_ENTROPY).unwrap();
    let r = Moss::new(&w, DEFAULT_THING_ENERGY, DEFAULT_THING_MIN_ENERGY_SON, SCALE);
    assert_eq!(r.err(), Some(ConfigError::EnergySonTooHigh(SCALE)));
}

#[test]
fn energy_son_thing_consistent() {
    // A newborn starts with min_energy_son * energy_son * (1 - entropy),
    // which must be at least the minimum viable energy, so any share below
    // MIN_VIABLE / (min_energy_son * (1 - entropy)) is rejected.
    let w = World::<Moss>::new(DEFAULT_SUN_POWER, DEFAULT_ENTROPY).unwrap();
    let bad_ene_son = (MIN_VIABLE_ENERGY * SCALE * SCALE)
        / ((SCALE - w.entropy()) * DEFAULT_THING_MIN_ENERGY_SON);
    println!("Bad Energy Son calculated as: {}", bad_ene_son);
    let r = Moss::new(&w, DEFAULT_THING_ENERGY, DEFAULT_THING_MIN_ENERGY_SON, bad_ene_son);
    assert_eq!(r.err(), Some(ConfigError::EnergySonNotViable(bad_ene_son)));
}

#[test]
fn basic_world() {
    let mut w = World::<Moss>::new(2100, 100).unwrap();
    w.add_first().unwrap();
    assert_eq!(1, w.things().len());
    if let Some(t) = w.things().first() {
        assert_eq!(DEFAULT_THING_ENERGY, t.energy());
        assert_eq!(DEFAULT_THING_MIN_ENERGY_SON, t.min_energy_son());
        assert_eq!(DEFAULT_THING_ENERGY_SON, t.energy_son());
    } else {
        panic!("No Things found!");
    }
    // Two ticks at the default parameters: the moss never reaches its
    // threshold of 21.0, so the population stays at one.
    let n = match w.step(2) {
        Some(s) => s,
        None => 0,
    };
    assert_eq!(1, n);
    assert_eq!(1, w.things().len());
}

#[test]
fn seed_viable_thing() {
    // 3.0 * 0.5 * 0.9 = 1.35 >= 1.0, so this combination is accepted.
    let mut w = World::<Moss>::new(2100, 100).unwrap();
    w.seed(20_000, 3000, 500).unwrap();
    assert_eq!(w.population_size(), 1);
    assert_eq!(w.things()[0].energy(), 20_000);
    assert_eq!(w.things()[0].min_energy_son(), 3000);
    assert_eq!(w.things()[0].energy_son(), 500);
}

#[test]
fn seed_share_at_one_rejected() {
    let mut w = World::<Moss>::new(2100, 100).unwrap();
    let r = w.seed(20_000, DEFAULT_THING_MIN_ENERGY_SON, SCALE);
    assert_eq!(r.err(), Some(ConfigError::EnergySonTooHigh(SCALE)));
    assert_eq!(w.population_size(), 0);
}

#[test]
fn step_zero_not_advanced() {
    let mut w = World::<Moss>::new(2100, 100).unwrap();
    w.add_first().unwrap();
    assert_eq!(w.step(0), None);
    assert_eq!(w.population_size(), 1);
}

#[test]
fn step_empty_world_not_advanced() {
    let mut w = World::<Moss>::new(2100, 100).unwrap();
    assert_eq!(w.step(3), None);
    assert_eq!(w.population_size(), 0);
}

#[test]
fn energy_update_formula() {
    // One tick: (20000 + 2100) * 900 / 1000 = 19890, below the threshold,
    // so the moss merely survives with the updated energy.
    let mut w = World::<Moss>::new(2100, 100).unwrap();
    w.add_first().unwrap();
    assert_eq!(w.step(1), Some(1));
    assert_eq!(w.things()[0].energy(), 19_890);
}

#[test]
fn reproduction_tick() {
    // With a strong sun the updated energy (20000 + 10000) * 900 / 1000 =
    // 27000 reaches the threshold 21000.  The parent pays 21000 * 500 /
    // 1000 = 10500, and the newborn starts with 21000 * 500 * 900 /
    // 1000000 = 9450, comfortably above the minimum viable energy.
    let mut w = World::<Moss>::new(10_000, 100).unwrap();
    w.add_first().unwrap();
    assert_eq!(w.step(1), Some(2));
    assert_eq!(w.things()[0].energy(), 16_500);
    assert_eq!(w.things()[1].energy(), 9450);
    assert_eq!(w.things()[1].min_energy_son(), DEFAULT_THING_MIN_ENERGY_SON);
    assert_eq!(w.things()[1].energy_son(), DEFAULT_THING_ENERGY_SON);
    assert!(w.things()[1].energy() >= MIN_VIABLE_ENERGY);
}

#[test]
fn death_tick() {
    // At entropy 0.9 and sun power 0.001 the update is (e + 1) / 10: the
    // default moss decays 20000 -> 2000 -> 200 -> 20 -> 2, and on the fifth
    // tick (2 + 1) / 10 = 0, so it dies and the population size drops.
    let mut w = World::<Moss>::new(1, 900).unwrap();
    w.add_first().unwrap();
    assert_eq!(w.step(4), Some(1));
    assert_eq!(w.things()[0].energy(), 2);
    assert_eq!(w.step(1), Some(0));
    assert_eq!(w.population_size(), 0);
}

#[test]
fn conservation_tick() {
    // Two things enter the tick: one survives, one dies, none reproduces.
    // Survivors plus casualties account for the whole pre-tick population.
    let mut w = World::<Moss>::new(1, 900).unwrap();
    w.seed(20_000, DEFAULT_THING_MIN_ENERGY_SON, DEFAULT_THING_ENERGY_SON)
        .unwrap();
    w.seed(2, DEFAULT_THING_MIN_ENERGY_SON, DEFAULT_THING_ENERGY_SON)
        .unwrap();
    assert_eq!(w.population_size(), 2);
    assert_eq!(w.step(1), Some(1));
    assert_eq!(w.population_size(), 1);
    assert_eq!(w.things()[0].energy(), 2000);
}
