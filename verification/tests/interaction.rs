use tamagotchi::actor::Actor;
use tamagotchi::identity::ActorId;
use tamagotchi::message::{Context, Outcome, TmgAction, TmgEvent};

const TEST_AGE: u64 = 30;
const BLOCK_DURATION: u64 = 1000;

fn user(id: u64) -> ActorId {
    ActorId(gstd::ActorId::from(id).into_bytes())
}

fn context(id: u64, block_height: u64) -> Context {
    Context { source: user(id), block_height, block_timestamp: block_height * BLOCK_DURATION }
}

#[test]
fn interaction_smoke_test() {
    let mut program = Actor::new();

    let res = program.initialize(String::from("Tamagotchi Name"), &context(2, 0), 1);
    assert!(res.is_ok());

    let res = program.handle(TmgAction::Name, &context(2, 0));
    assert_eq!(res, Ok(Outcome::Reply(TmgEvent::Name(String::from("Tamagotchi Name")))));

    let res = program.handle(TmgAction::Age, &context(2, TEST_AGE));
    assert_eq!(res, Ok(Outcome::Reply(TmgEvent::Age(TEST_AGE * 1000))));
}

#[test]
fn interaction_interaction_test() {
    let mut program = Actor::new();

    let res = program.initialize(String::from("Tamagotchi Name"), &context(2, 0), 1);
    assert!(res.is_ok());

    let res = program.handle(TmgAction::Feed, &context(2, 0));
    assert_eq!(res, Ok(Outcome::Reply(TmgEvent::Fed)));

    let res = program.handle(TmgAction::Entertain, &context(2, 0));
    assert_eq!(res, Ok(Outcome::Reply(TmgEvent::Entertained)));

    let res = program.handle(TmgAction::Sleep, &context(2, 0));
    assert_eq!(res, Ok(Outcome::Reply(TmgEvent::Slept)));
}
