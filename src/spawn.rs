//! Whether a spawn should produce another unit this tick.

use vstd::prelude::*;

verus! {

/// No more units are spawned once this many are alive.
pub const MAX_CREEPS: usize = 5;

/// A body part of a unit.
#[derive(Clone, Copy, Debug, PartialEq, Eq, Structural)]
pub enum BodyPart {
    Move,
    Work,
    Carry,
    Attack,
    RangedAttack,
    Tough,
    Heal,
    Claim,
}

impl BodyPart {
    pub open spec fn cost_of(self) -> nat {
        match self {
            BodyPart::Move => 50,
            BodyPart::Work => 100,
            BodyPart::Carry => 50,
            BodyPart::Attack => 80,
            BodyPart::RangedAttack => 150,
            BodyPart::Tough => 10,
            BodyPart::Heal => 250,
            BodyPart::Claim => 600,
        }
    }

    /// Energy it takes to spawn this part.
    pub fn cost(&self) -> (r: u32)
        ensures
            r == self.cost_of(),
    {
        match self {
            BodyPart::Move => 50,
            BodyPart::Work => 100,
            BodyPart::Carry => 50,
            BodyPart::Attack => 80,
            BodyPart::RangedAttack => 150,
            BodyPart::Tough => 10,
            BodyPart::Heal => 250,
            BodyPart::Claim => 600,
        }
    }
}

/// Energy it takes to spawn a body: the sum of its parts' costs.
pub open spec fn body_cost_of(body: Seq<BodyPart>) -> nat
    decreases body.len(),
{
    if body.len() == 0 {
        0
    } else {
        body_cost_of(body.drop_last()) + body.last().cost_of()
    }
}

proof fn lemma_body_cost_grows(body: Seq<BodyPart>, i: int)
    requires
        0 <= i <= body.len(),
    ensures
        body_cost_of(body.take(i)) <= body_cost_of(body),
    decreases body.len() - i,
{
    if i < body.len() {
        lemma_body_cost_grows(body, i + 1);
        assert(body.take(i + 1).drop_last() =~= body.take(i));
    } else {
        assert(body.take(i) =~= body);
    }
}

/// Energy it takes to spawn `body`, or `None` when that is more than a `u32`
/// holds.
pub fn body_cost(body: &Vec<BodyPart>) -> (r: Option<u32>)
    ensures
        r == (if body_cost_of(body@) <= u32::MAX {
            Some(body_cost_of(body@) as u32)
        } else {
            None::<u32>
        }),
{
    let mut total: u32 = 0;
    let mut i: usize = 0;
    while i < body.len()
        invariant
            i <= body@.len(),
            total == body_cost_of(body@.take(i as int)),
        decreases body@.len() - i,
    {
        assert(body@.take(i + 1).drop_last() =~= body@.take(i as int));
        let c = body[i].cost();
        if total > u32::MAX - c {
            proof {
                lemma_body_cost_grows(body@, i + 1);
            }
            return None;
        }
        total = total + c;
        i += 1;
    }
    assert(body@.take(body@.len() as int) =~= body@);
    Some(total)
}

/// A spawn produces a unit with `body` when fewer than `MAX_CREEPS` units are
/// alive and its room holds the energy the body costs.
pub fn should_spawn(alive: usize, energy_available: u32, body: &Vec<BodyPart>) -> (r: bool)
    ensures
        r == (alive < MAX_CREEPS && body_cost_of(body@) <= energy_available),
{
    if alive >= MAX_CREEPS {
        return false;
    }
    match body_cost(body) {
        Some(c) => c <= energy_available,
        None => false,
    }
}

} // verus!
