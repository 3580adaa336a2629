use creep_tasks::spawn::{body_cost, should_spawn, BodyPart, MAX_CREEPS};

fn worker() -> Vec<BodyPart> {
    vec![BodyPart::Move, BodyPart::Move, BodyPart::Carry, BodyPart::Work]
}

#[test]
fn worker_body_costs_250() {
    assert_eq!(body_cost(&worker()), Some(250));
    assert_eq!(body_cost(&vec![]), Some(0));
    assert_eq!(body_cost(&vec![BodyPart::Claim, BodyPart::Heal, BodyPart::Tough]), Some(860));
    assert_eq!(BodyPart::RangedAttack.cost() + BodyPart::Attack.cost(), 230);
}

#[test]
fn spawn_needs_energy_and_room_for_units() {
    assert!(should_spawn(0, 250, &worker()));
    assert!(!should_spawn(0, 249, &worker()));
    assert!(should_spawn(MAX_CREEPS - 1, 300, &worker()));
    assert!(!should_spawn(MAX_CREEPS, 10_000, &worker()));
}
