use tamagotchi::decay::{
    NurtureAttribute, BOREDOM_PER_BLOCK, ENERGY_PER_BLOCK, FILL_PER_ENTERTAINMENT, FILL_PER_FEED,
    FILL_PER_SLEEP, HUNGER_PER_BLOCK,
};
use tamagotchi::identity::ActorId;
use tamagotchi::message::{Context, TmgEvent};
use tamagotchi::pet::{Tamagotchi, INITIAL_TAMAGOTCHI_STATUS};

fn owner() -> ActorId {
    ActorId(gstd::ActorId::from(2u64).into_bytes())
}

fn pet_at(block_height: u64, initial_level: u64) -> Tamagotchi {
    let ctx = Context { source: owner(), block_height, block_timestamp: 5000 };
    Tamagotchi::new(String::from("Rex"), &ctx, initial_level)
}

#[test]
fn rates_and_fills_are_the_fixed_constants() {
    assert_eq!(HUNGER_PER_BLOCK, 1);
    assert_eq!(BOREDOM_PER_BLOCK, 2);
    assert_eq!(ENERGY_PER_BLOCK, 2);
    assert_eq!(FILL_PER_FEED, 1000);
    assert_eq!(FILL_PER_ENTERTAINMENT, 1000);
    assert_eq!(FILL_PER_SLEEP, 1000);
    assert_eq!(INITIAL_TAMAGOTCHI_STATUS, 1000);
}

#[test]
fn normalize_takes_rate_times_elapsed() {
    let mut score = NurtureAttribute::new(1000, 10);
    score.normalize(40, 1);
    assert_eq!(score, NurtureAttribute { level: 970, last_update_block: 40 });

    let mut score = NurtureAttribute::new(1000, 10);
    score.normalize(40, 2);
    assert_eq!(score, NurtureAttribute { level: 940, last_update_block: 40 });
}

#[test]
fn normalize_with_no_block_elapsed_keeps_the_level() {
    let mut score = NurtureAttribute::new(77, 10);
    score.normalize(10, 2);
    assert_eq!(score, NurtureAttribute { level: 77, last_update_block: 10 });
}

#[test]
fn normalize_stops_at_zero() {
    let mut score = NurtureAttribute::new(1000, 0);
    score.normalize(1000, 1);
    assert_eq!(score.level, 0);

    let mut score = NurtureAttribute::new(1000, 0);
    score.normalize(1001, 1);
    assert_eq!(score, NurtureAttribute { level: 0, last_update_block: 1001 });

    let mut score = NurtureAttribute::new(1, 0);
    score.normalize(30, 1);
    assert_eq!(score.level, 0);
}

#[test]
fn normalize_stops_at_zero_where_the_decay_exceeds_every_number() {
    let mut score = NurtureAttribute::new(u64::MAX, 0);
    score.normalize(u64::MAX, 2);
    assert_eq!(score, NurtureAttribute { level: 0, last_update_block: u64::MAX });

    let mut score = NurtureAttribute::new(u64::MAX, 0);
    score.normalize(u64::MAX, 1);
    assert_eq!(score.level, 0);

    let mut score = NurtureAttribute::new(u64::MAX, 1);
    score.normalize(u64::MAX, 1);
    assert_eq!(score.level, 1);
}

#[test]
fn normalize_with_a_clock_that_went_back_takes_nothing() {
    let mut score = NurtureAttribute::new(500, 100);
    score.normalize(40, 2);
    assert_eq!(score, NurtureAttribute { level: 500, last_update_block: 40 });
}

#[test]
fn normalize_with_rate_zero_keeps_the_level() {
    let mut score = NurtureAttribute::new(500, 0);
    score.normalize(1_000_000, 0);
    assert_eq!(score, NurtureAttribute { level: 500, last_update_block: 1_000_000 });
}

#[test]
fn replenish_normalizes_first_and_adds_second() {
    let mut score = NurtureAttribute::new(1000, 0);
    score.replenish(30, 1, 1000);
    assert_eq!(score, NurtureAttribute { level: 1970, last_update_block: 30 });
}

#[test]
fn replenish_after_a_long_decay_restores_to_the_amount() {
    let mut score = NurtureAttribute::new(1000, 0);
    score.replenish(5000, 1, 1000);
    assert_eq!(score, NurtureAttribute { level: 1000, last_update_block: 5000 });

    let mut score = NurtureAttribute::new(400, 0);
    score.replenish(300, 2, 250);
    assert_eq!(score.level, 250);
}

#[test]
fn replenish_stays_at_the_largest_level() {
    let mut score = NurtureAttribute::new(u64::MAX - 10, 0);
    score.replenish(0, 1, 1000);
    assert_eq!(score.level, u64::MAX);

    let mut score = NurtureAttribute::new(u64::MAX - 10, 0);
    score.replenish(5, 1, 15);
    assert_eq!(score.level, u64::MAX);

    let mut score = NurtureAttribute::new(u64::MAX - 10, 0);
    score.replenish(5, 1, 14);
    assert_eq!(score.level, u64::MAX - 1);
}

#[test]
fn updates_use_each_score_s_own_rate() {
    let mut pet = pet_at(0, 1000);
    pet.update_fed(100);
    pet.update_entertained(100);
    pet.update_slept(100);
    assert_eq!(pet.fed, NurtureAttribute { level: 900, last_update_block: 100 });
    assert_eq!(pet.entertained, NurtureAttribute { level: 800, last_update_block: 100 });
    assert_eq!(pet.slept, NurtureAttribute { level: 800, last_update_block: 100 });
}

#[test]
fn an_update_touches_its_own_score_only() {
    let mut pet = pet_at(0, 1000);
    let before = pet.snapshot();
    pet.update_entertained(100);
    assert_eq!(pet.fed, before.fed);
    assert_eq!(pet.slept, before.slept);
    pet.entertained = before.entertained;
    assert_eq!(pet, before);
}

#[test]
fn an_update_twice_at_one_block_decays_once() {
    let mut pet = pet_at(0, 1000);
    pet.update_fed(100);
    pet.update_fed(100);
    assert_eq!(pet.fed.level, 900);
}

#[test]
fn care_replenishes_each_score() {
    let mut pet = pet_at(0, 1000);
    assert_eq!(pet.feed(100), TmgEvent::Fed);
    assert_eq!(pet.entertain(100), TmgEvent::Entertained);
    assert_eq!(pet.sleep(100), TmgEvent::Slept);
    assert_eq!(pet.fed, NurtureAttribute { level: 1900, last_update_block: 100 });
    assert_eq!(pet.entertained, NurtureAttribute { level: 1800, last_update_block: 100 });
    assert_eq!(pet.slept, NurtureAttribute { level: 1800, last_update_block: 100 });
}

#[test]
fn sleep_after_a_long_decay_restores_to_the_fill() {
    let mut pet = pet_at(0, 1000);
    pet.sleep(500);
    assert_eq!(pet.slept, NurtureAttribute { level: 1000, last_update_block: 500 });
}

#[test]
fn name_and_age_read_the_record() {
    let pet = pet_at(7, 1);
    assert_eq!(pet.name(), TmgEvent::Name(String::from("Rex")));
    assert_eq!(pet.age(5000), TmgEvent::Age(0));
    assert_eq!(pet.age(35000), TmgEvent::Age(30000));
    assert_eq!(pet.age(4000), TmgEvent::Age(0));
}

#[test]
fn a_new_pet_is_as_it_was_born() {
    let pet = pet_at(7, 1);
    let score = NurtureAttribute { level: 1, last_update_block: 7 };
    assert_eq!(
        pet,
        Tamagotchi {
            name: String::from("Rex"),
            date_of_birth: 5000,
            owner: owner(),
            fed: score,
            entertained: score,
            slept: score,
            approved_account: None,
            ft_contract_id: None,
            transaction_id: 0,
            approve_transaction: None,
            pending_purchase: None,
            reservations: Vec::new(),
        }
    );
}
