use booster::booster::{boost_grades, Booster, DEFAULT_AMOUNT};
use booster::error::BoosterError;
use booster::handle::BoosterHandle;
use booster::message::{BoosterMessage, Effect, Step};

fn add(value: u64, amount: u64) -> u64 {
    (f64::from_bits(value) + f64::from_bits(amount)).to_bits()
}

fn fresh<C>() -> Booster<C> {
    BoosterHandle::<C>::new().1
}

fn bits(values: &[f64]) -> Vec<u64> {
    values.iter().map(|v| v.to_bits()).collect()
}

fn floats(values: &[u64]) -> Vec<f64> {
    values.iter().map(|v| f64::from_bits(*v)).collect()
}

fn forwarded(res: Result<Effect, BoosterError>) -> Vec<f64> {
    match res {
        Ok(Effect::Forward { grades }) => floats(&grades),
        other => panic!("no forwarding: {:?}", other),
    }
}

#[test]
fn default_amount_is_one_hundred() {
    assert_eq!(f64::from_bits(DEFAULT_AMOUNT), 100.0);
    let actor: Booster<u32> = fresh();
    assert_eq!(f64::from_bits(actor.amount()), 100.0);
    assert_eq!(actor.admin(), None);
    assert!(actor.is_running());
}

#[test]
fn boost_grades_adds_amount_in_order() {
    let out = boost_grades(&bits(&[1.0, 2.0, -3.25, 0.0]), 2.5f64.to_bits(), add);
    assert_eq!(floats(&out), vec![3.5, 4.5, -0.75, 2.5]);
}

#[test]
fn boost_grades_of_nothing_is_nothing() {
    let out = boost_grades(&Vec::new(), DEFAULT_AMOUNT, add);
    assert_eq!(out, Vec::<u64>::new());
}

#[test]
fn boost_grades_keeps_duplicates_and_order() {
    let out = boost_grades(&bits(&[5.0, 5.0, 1.0, 5.0]), (-1.0f64).to_bits(), add);
    assert_eq!(floats(&out), vec![4.0, 4.0, 0.0, 4.0]);
}

#[test]
fn boost_grades_uses_the_given_arithmetic() {
    let out = boost_grades(&vec![3, 9, 4], 5, |v: u64, a: u64| v.max(a));
    assert_eq!(out, vec![5, 9, 5]);
}

#[test]
fn grades_go_to_the_bound_admin_raised_by_one_hundred() {
    let mut actor: Booster<&str> = fresh();
    let bound = actor.handle_message(BoosterMessage::SetAdmin { admin_handle: "C" }, add);
    assert_eq!(bound, Ok(Effect::Idle));
    assert_eq!(actor.admin(), Some(&"C"));
    let res = actor.handle_message(
        BoosterMessage::BoostGrades { grades: bits(&[0.0, -50.0, 3.5]) },
        add,
    );
    assert_eq!(forwarded(res), vec![100.0, 50.0, 103.5]);
    assert_eq!(actor.admin(), Some(&"C"));
    assert_eq!(f64::from_bits(actor.amount()), 100.0);
}

#[test]
fn grades_without_admin_are_dropped_with_an_error() {
    let mut actor: Booster<u32> = fresh();
    let res = actor.handle_message(BoosterMessage::BoostGrades { grades: bits(&[1.0, 2.0]) }, add);
    assert_eq!(res, Err(BoosterError::MissingCollaborator));
    assert_eq!(actor.admin(), None);
    assert!(actor.is_running());
    assert_eq!(f64::from_bits(actor.amount()), 100.0);
}

#[test]
fn actor_goes_on_after_a_missing_admin() {
    let mut actor: Booster<u32> = fresh();
    let first = actor.step(Some(BoosterMessage::BoostGrades { grades: bits(&[1.0, 2.0]) }), add);
    assert_eq!(first, Step::Handled { outcome: Err(BoosterError::MissingCollaborator) });
    let second = actor.step(Some(BoosterMessage::SetAdmin { admin_handle: 4 }), add);
    assert_eq!(second, Step::Handled { outcome: Ok(Effect::Idle) });
    let third = actor.step(Some(BoosterMessage::BoostGrades { grades: bits(&[1.0, 2.0]) }), add);
    assert_eq!(
        third,
        Step::Handled { outcome: Ok(Effect::Forward { grades: bits(&[101.0, 102.0]) }) }
    );
}

#[test]
fn last_admin_set_wins() {
    let mut actor: Booster<char> = fresh();
    actor.handle_message(BoosterMessage::SetAdmin { admin_handle: 'A' }, add).unwrap();
    assert_eq!(actor.admin(), Some(&'A'));
    actor.handle_message(BoosterMessage::SetAdmin { admin_handle: 'B' }, add).unwrap();
    assert_eq!(actor.admin(), Some(&'B'));
    let res = actor.handle_message(BoosterMessage::BoostGrades { grades: bits(&[7.0]) }, add);
    assert_eq!(forwarded(res), vec![107.0]);
    assert_eq!(actor.admin(), Some(&'B'));
    let again = actor.handle_message(BoosterMessage::BoostGrades { grades: bits(&[8.0]) }, add);
    assert_eq!(forwarded(again), vec![108.0]);
    assert_eq!(actor.admin(), Some(&'B'));
}

#[test]
fn set_admin_asks_for_no_forwarding() {
    let mut actor: Booster<u8> = fresh();
    let turn = actor.step(Some(BoosterMessage::SetAdmin { admin_handle: 1 }), add);
    assert_eq!(turn, Step::Handled { outcome: Ok(Effect::Idle) });
    assert!(actor.is_running());
}

#[test]
fn messages_are_handled_in_the_order_given() {
    let mut actor: Booster<u8> = fresh();
    let sent = vec![
        BoosterMessage::SetAdmin { admin_handle: 1 },
        BoosterMessage::BoostGrades { grades: bits(&[1.0]) },
        BoosterMessage::SetAdmin { admin_handle: 2 },
        BoosterMessage::BoostGrades { grades: bits(&[2.0, 3.0]) },
        BoosterMessage::BoostGrades { grades: bits(&[]) },
    ];
    let mut seen: Vec<(Step, Option<u8>)> = Vec::new();
    for msg in sent {
        let turn = actor.step(Some(msg), add);
        seen.push((turn, actor.admin().copied()));
    }
    let idle = || Step::Handled { outcome: Ok(Effect::Idle) };
    let forward = |v: &[f64]| Step::Handled { outcome: Ok(Effect::Forward { grades: bits(v) }) };
    assert_eq!(
        seen,
        vec![
            (idle(), Some(1)),
            (forward(&[101.0]), Some(1)),
            (idle(), Some(2)),
            (forward(&[102.0, 103.0]), Some(2)),
            (forward(&[]), Some(2)),
        ]
    );
}

#[test]
fn closed_queue_stops_the_loop() {
    let mut actor: Booster<u8> = fresh();
    actor.step(Some(BoosterMessage::SetAdmin { admin_handle: 9 }), add);
    let turn = actor.step(None, add);
    assert_eq!(turn, Step::Halt);
    assert!(!actor.is_running());
    assert_eq!(actor.admin(), Some(&9));
}

#[test]
fn nothing_leaves_stopped() {
    let mut actor: Booster<u8> = fresh();
    assert_eq!(actor.step(None, add), Step::Halt);
    let late = actor.step(Some(BoosterMessage::SetAdmin { admin_handle: 3 }), add);
    assert_eq!(late, Step::Halt);
    assert_eq!(actor.admin(), None);
    assert!(!actor.is_running());
    assert_eq!(actor.step(Some(BoosterMessage::BoostGrades { grades: bits(&[1.0]) }), add), Step::Halt);
    assert_eq!(actor.step(None, add), Step::Halt);
    assert!(!actor.is_running());
}
