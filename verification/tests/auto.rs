use tamagotchi::actor::HostReply;
use tamagotchi::decay::NurtureAttribute;
use tamagotchi::identity::{ActorId, ReservationId};
use tamagotchi::message::{
    Alert, CheckReport, Context, Notification, Outcome, ReservationRequest, TmgAction, TmgError,
    TmgEvent,
};
use tamagotchi::pet::Tamagotchi;
use tamagotchi::scheduler::{LOW_WATER_MARK, TIME_INTERVAL};

fn user(id: u64) -> ActorId {
    ActorId(gstd::ActorId::from(id).into_bytes())
}

fn credit(n: u8) -> ReservationId {
    ReservationId([n; 32])
}

fn context(id: u64, block_height: u64) -> Context {
    Context { source: user(id), block_height, block_timestamp: block_height * 1000 }
}

fn pet_with_credits(count: u8) -> Tamagotchi {
    let mut pet = Tamagotchi::new(String::from("Rex"), &context(2, 0), 1000);
    for n in 0..count {
        assert_eq!(pet.add_reservation(&user(2), Some(credit(n))), Ok(TmgEvent::GasReserved));
    }
    pet
}

fn note(n: u8, alert: Alert) -> Notification {
    Notification { reservation: credit(n), owner: user(2), alert }
}

#[test]
fn the_interval_and_the_mark_are_the_fixed_constants() {
    assert_eq!(TIME_INTERVAL, 30);
    assert_eq!(LOW_WATER_MARK, 1);
}

#[test]
fn alerts_carry_their_events() {
    assert_eq!(Alert::FeedMe.event(), TmgEvent::FeedMe);
    assert_eq!(Alert::PlayWithMe.event(), TmgEvent::PlayWithMe);
    assert_eq!(Alert::WantToSleep.event(), TmgEvent::WantToSleep);
}

#[test]
fn a_check_of_a_full_pet_only_reschedules() {
    let mut pet = pet_with_credits(2);
    let report = pet.check_state(30);
    assert_eq!(
        report,
        CheckReport { notifications: vec![], unfunded: vec![], next_check_delay: 30 }
    );
    assert_eq!(pet.fed, NurtureAttribute { level: 970, last_update_block: 30 });
    assert_eq!(pet.entertained, NurtureAttribute { level: 940, last_update_block: 30 });
    assert_eq!(pet.slept, NurtureAttribute { level: 940, last_update_block: 30 });
    assert_eq!(pet.reservations, vec![credit(0), credit(1)]);
}

#[test]
fn a_check_alerts_at_the_mark_and_not_above_it() {
    let mut pet = pet_with_credits(3);
    let report = pet.check_state(499);
    assert_eq!(pet.fed.level, 501);
    assert_eq!(pet.entertained.level, 2);
    assert_eq!(report.notifications, vec![]);

    let mut pet = pet_with_credits(3);
    pet.slept.level = 1001;
    let report = pet.check_state(500);
    assert_eq!(pet.entertained.level, 0);
    assert_eq!(pet.slept.level, 1);
    assert_eq!(
        report.notifications,
        vec![note(0, Alert::PlayWithMe), note(1, Alert::WantToSleep)]
    );
    assert_eq!(report.unfunded, vec![]);
    assert_eq!(pet.reservations, vec![credit(2)]);
}

#[test]
fn a_check_pays_from_the_oldest_reservations_in_order() {
    let mut pet = pet_with_credits(5);
    let res = pet.handle(TmgAction::CheckState, &context(9, 5000));
    assert_eq!(
        res,
        Ok(Outcome::Checked(CheckReport {
            notifications: vec![
                note(0, Alert::FeedMe),
                note(1, Alert::PlayWithMe),
                note(2, Alert::WantToSleep),
            ],
            unfunded: vec![],
            next_check_delay: 30,
        }))
    );
    assert_eq!(pet.reservations, vec![credit(3), credit(4)]);
    assert_eq!(pet.fed, NurtureAttribute { level: 0, last_update_block: 5000 });
}

#[test]
fn a_check_lists_what_it_could_not_pay_for() {
    let mut pet = pet_with_credits(1);
    let report = pet.check_state(5000);
    assert_eq!(
        report,
        CheckReport {
            notifications: vec![note(0, Alert::FeedMe)],
            unfunded: vec![Alert::PlayWithMe, Alert::WantToSleep],
            next_check_delay: 30,
        }
    );
    assert_eq!(pet.reservations, vec![]);
}

#[test]
fn a_check_with_an_empty_pool_sends_nothing_and_still_reschedules() {
    let mut pet = pet_with_credits(0);
    let report = pet.check_state(5000);
    assert_eq!(
        report,
        CheckReport {
            notifications: vec![],
            unfunded: vec![Alert::FeedMe, Alert::PlayWithMe, Alert::WantToSleep],
            next_check_delay: 30,
        }
    );
    assert_eq!(pet.fed, NurtureAttribute { level: 0, last_update_block: 5000 });
    assert_eq!(pet.reservations, vec![]);

    let mut pet = pet_with_credits(0);
    let report = pet.check_state(30);
    assert_eq!(
        report,
        CheckReport { notifications: vec![], unfunded: vec![], next_check_delay: 30 }
    );
}

#[test]
fn every_check_of_a_run_reschedules_once_and_alerts_once_for_each_low_score() {
    let mut pet = pet_with_credits(12);
    let mut reschedules = 0;
    let mut alerts = Vec::new();
    for cycle in 1..=20u64 {
        let report = pet.check_state(cycle * 30);
        assert_eq!(report.next_check_delay, 30);
        assert_eq!(report.unfunded, vec![]);
        reschedules += 1;
        for notification in report.notifications {
            alerts.push((cycle, notification.alert));
        }
    }
    assert_eq!(reschedules, 20);
    assert_eq!(
        alerts,
        vec![
            (17, Alert::PlayWithMe),
            (17, Alert::WantToSleep),
            (18, Alert::PlayWithMe),
            (18, Alert::WantToSleep),
            (19, Alert::PlayWithMe),
            (19, Alert::WantToSleep),
            (20, Alert::PlayWithMe),
            (20, Alert::WantToSleep),
        ]
    );
    assert_eq!(pet.fed.level, 400);
    assert_eq!(pet.reservations, vec![credit(8), credit(9), credit(10), credit(11)]);
}

#[test]
fn a_check_after_many_blocks_alerts_once_for_a_score() {
    let mut pet = pet_with_credits(9);
    let report = pet.check_state(1_000_000);
    assert_eq!(report.notifications.len(), 3);
    assert_eq!(pet.reservations.len(), 6);
}

#[test]
fn a_fed_pet_stops_asking_for_food() {
    let mut pet = pet_with_credits(9);
    pet.check_state(5000);
    pet.feed(5010);
    let report = pet.check_state(5030);
    assert_eq!(pet.fed.level, 980);
    assert_eq!(
        report.notifications,
        vec![note(3, Alert::PlayWithMe), note(4, Alert::WantToSleep)]
    );
}

#[test]
fn anybody_may_trigger_a_check() {
    let mut pet = pet_with_credits(0);
    assert!(pet.handle(TmgAction::CheckState, &context(77, 30)).is_ok());
}

#[test]
fn the_owner_s_wish_to_reserve_becomes_a_request() {
    let mut pet = pet_with_credits(0);
    let before = pet.snapshot();
    let res = pet.handle(
        TmgAction::ReserveGas { reservation_amount: 5_000_000, duration: 100 },
        &context(2, 1),
    );
    assert_eq!(
        res,
        Ok(Outcome::AskReservation(ReservationRequest { amount: 5_000_000, duration: 100 }))
    );
    assert_eq!(pet, before);
    assert_eq!(pet.reserve_gas(&user(3), 1, 1), Err(TmgError::Unauthorized));
}

#[test]
fn a_made_reservation_is_added_as_the_newest() {
    let mut pet = pet_with_credits(2);
    let made = HostReply::Reservation { reserved: Some(credit(9)) };
    assert_eq!(pet.resume(made, &context(2, 1)), Ok(TmgEvent::GasReserved));
    assert_eq!(pet.reservations, vec![credit(0), credit(1), credit(9)]);
}

#[test]
fn a_rejected_reservation_is_reported_and_changes_nothing() {
    let mut pet = pet_with_credits(2);
    let before = pet.snapshot();
    let rejected = HostReply::Reservation { reserved: None };
    assert_eq!(pet.resume(rejected, &context(2, 1)), Err(TmgError::ReservationRejected));
    assert_eq!(pet, before);
}

#[test]
fn nobody_but_the_owner_adds_a_reservation() {
    let mut pet = pet_with_credits(2);
    let before = pet.snapshot();
    assert_eq!(pet.add_reservation(&user(3), Some(credit(9))), Err(TmgError::Unauthorized));
    assert_eq!(pet.add_reservation(&user(3), None), Err(TmgError::Unauthorized));
    assert_eq!(pet, before);
}
