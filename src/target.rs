//! The task state machine: a unit's goal, the result codes of the actions the
//! host performs for it, and the transition from this tick's goal to the next.

use vstd::prelude::*;
use crate::movement::Outcome;

verus! {

/// A unit's goal: what it works on, by the stable identifier of the object.
/// The identifier is resolved afresh every tick; no live handle is kept.
/// A unit without a goal holds `None` in place of a `CreepTarget`.
#[derive(Clone, Debug, PartialEq, Eq)]
pub enum CreepTarget {
    /// Contribute stored resource to the room's controller.
    Upgrade(String),
    /// Stand next to a resource node and extract from it.
    Harvest(String),
    /// Deliver stored resource to a spawn structure.
    Spawn(String),
    /// Contribute stored resource to a construction site.
    Build(String),
}

/// A goal as a mathematical value.
pub enum TargetView {
    Upgrade(Seq<char>),
    Harvest(Seq<char>),
    Spawn(Seq<char>),
    Build(Seq<char>),
}

impl View for CreepTarget {
    type V = TargetView;

    open spec fn view(&self) -> TargetView {
        match self {
            CreepTarget::Upgrade(id) => TargetView::Upgrade(id@),
            CreepTarget::Harvest(id) => TargetView::Harvest(id@),
            CreepTarget::Spawn(id) => TargetView::Spawn(id@),
            CreepTarget::Build(id) => TargetView::Build(id@),
        }
    }
}

/// A goal slot (`None`: no goal) as a mathematical value.
pub open spec fn goal_view(g: Option<CreepTarget>) -> Option<TargetView> {
    match g {
        Some(t) => Some(t@),
        None => None,
    }
}

impl CreepTarget {
    /// A copy of this goal.
    pub fn copied(&self) -> (r: CreepTarget)
        ensures
            r@ == self@,
    {
        match self {
            CreepTarget::Upgrade(id) => CreepTarget::Upgrade(id.clone()),
            CreepTarget::Harvest(id) => CreepTarget::Harvest(id.clone()),
            CreepTarget::Spawn(id) => CreepTarget::Spawn(id.clone()),
            CreepTarget::Build(id) => CreepTarget::Build(id.clone()),
        }
    }

    /// The identifier this goal refers to.
    pub fn id(&self) -> (r: &String)
        ensures
            r@ == target_id(self@),
    {
        match self {
            CreepTarget::Upgrade(id) => id,
            CreepTarget::Harvest(id) => id,
            CreepTarget::Spawn(id) => id,
            CreepTarget::Build(id) => id,
        }
    }
}

pub open spec fn target_id(t: TargetView) -> Seq<char> {
    match t {
        TargetView::Upgrade(id) => id,
        TargetView::Harvest(id) => id,
        TargetView::Spawn(id) => id,
        TargetView::Build(id) => id,
    }
}

/// A goal slot's copy.
pub fn copy_goal(g: &Option<CreepTarget>) -> (r: Option<CreepTarget>)
    ensures
        goal_view(r) == goal_view(*g),
{
    match g {
        Some(t) => Some(t.copied()),
        None => None,
    }
}

/// The result code of an action the host performed.
#[derive(Clone, Copy, Debug, PartialEq, Eq, Structural)]
pub enum ResultCode {
    Success,
    NotInRange,
    NotEnough,
    Full,
    NoPath,
    Busy,
    NotFound,
    /// Any other code the host may return.
    Other(i32),
}

impl ResultCode {
    /// The result code for the host's numeric return code: 0 is success, the
    /// host's negative constants map to their variants, anything else is kept
    /// as `Other`.
    pub fn from_code(code: i32) -> (r: ResultCode)
        ensures
            r == (if code == 0 {
                ResultCode::Success
            } else if code == -2 {
                ResultCode::NoPath
            } else if code == -4 {
                ResultCode::Busy
            } else if code == -5 {
                ResultCode::NotFound
            } else if code == -6 {
                ResultCode::NotEnough
            } else if code == -8 {
                ResultCode::Full
            } else if code == -9 {
                ResultCode::NotInRange
            } else {
                ResultCode::Other(code)
            }),
    {
        match code {
            0 => ResultCode::Success,
            -2 => ResultCode::NoPath,
            -4 => ResultCode::Busy,
            -5 => ResultCode::NotFound,
            -6 => ResultCode::NotEnough,
            -8 => ResultCode::Full,
            -9 => ResultCode::NotInRange,
            _ => ResultCode::Other(code),
        }
    }
}

/// What the world said about a unit's goal this tick.
#[derive(Clone, Debug)]
pub struct TickReport {
    /// The goal's identifier resolved to a live object.
    pub resolved: bool,
    /// The unit's store had no free capacity before it acted.
    pub store_full: bool,
    /// What the goal's action returned, when it was attempted.
    pub action: Option<ResultCode>,
    /// What the movement toward the goal's object came to, when one was made.
    pub movement: Option<Outcome>,
    /// The room's best resource node this tick, if the room has one.
    pub best_node: Option<String>,
    /// The room's controller, if the room has one.
    pub controller: Option<String>,
}

/// After an action reported "not in range" and a move was requested: keep the
/// goal, unless no path could be found, which ends it.
pub open spec fn after_move(t: TargetView, movement: Option<Outcome>) -> Option<TargetView> {
    match movement {
        Some(Outcome::NoPath) => None,
        _ => Some(t),
    }
}

/// Harvesting at the room's best node, if there is one.
pub open spec fn harvest_best(r: &TickReport) -> Option<TargetView> {
    match r.best_node {
        Some(n) => Some(TargetView::Harvest(n@)),
        None => None,
    }
}

/// Upgrading the room's controller, if there is one.
pub open spec fn upgrade_controller(r: &TickReport) -> Option<TargetView> {
    match r.controller {
        Some(c) => Some(TargetView::Upgrade(c@)),
        None => None,
    }
}

/// The transition table: the goal after this tick, given the goal `t` the
/// unit held and what the world reported. Codes the table does not name, and
/// an action that should have run but reported nothing, end the goal.
pub open spec fn next_target(t: TargetView, r: &TickReport) -> Option<TargetView> {
    if !r.resolved {
        None
    } else {
        match t {
            TargetView::Harvest(_) => {
                if r.store_full {
                    None
                } else {
                    match r.action {
                        Some(ResultCode::Success) => Some(t),
                        Some(ResultCode::Full) => None,
                        Some(ResultCode::NotInRange) => after_move(t, r.movement),
                        Some(ResultCode::NoPath) => None,
                        _ => None,
                    }
                }
            },
            TargetView::Upgrade(_) => match r.action {
                Some(ResultCode::Success) => Some(t),
                Some(ResultCode::NotEnough) => None,
                Some(ResultCode::NotInRange) => after_move(t, r.movement),
                Some(ResultCode::Busy) => Some(t),
                _ => None,
            },
            TargetView::Spawn(_) => match r.action {
                Some(ResultCode::Success) => None,
                Some(ResultCode::NotEnough) => harvest_best(r),
                Some(ResultCode::Full) => upgrade_controller(r),
                Some(ResultCode::NotInRange) => after_move(t, r.movement),
                _ => None,
            },
            TargetView::Build(_) => match r.action {
                Some(ResultCode::Success) => Some(t),
                Some(ResultCode::NotFound) => None,
                Some(ResultCode::NotEnough) => None,
                Some(ResultCode::NotInRange) => after_move(t, r.movement),
                _ => None,
            },
        }
    }
}

/// The goal after this tick for a goal slot: no goal stays no goal.
pub open spec fn next_goal(g: Option<TargetView>, r: &TickReport) -> Option<TargetView> {
    match g {
        Some(t) => next_target(t, r),
        None => None,
    }
}

/// Whether the action of `t` is to be attempted this tick: its object
/// resolved, and for harvesting the store still has room.
pub open spec fn acts(t: TargetView, resolved: bool, store_full: bool) -> bool {
    resolved && !(t is Harvest && store_full)
}

/// The goal slot after a move toward the object of `t` was requested.
fn keep_after_move(t: &CreepTarget, movement: Option<Outcome>) -> (r: Option<CreepTarget>)
    ensures
        goal_view(r) == after_move(t@, movement),
{
    match movement {
        Some(Outcome::NoPath) => None,
        _ => Some(t.copied()),
    }
}

impl CreepTarget {
    /// Whether the goal's action is to be attempted this tick (see `acts`).
    pub fn should_act(&self, resolved: bool, store_full: bool) -> (r: bool)
        ensures
            r == acts(self@, resolved, store_full),
    {
        match self {
            CreepTarget::Harvest(_) => resolved && !store_full,
            _ => resolved,
        }
    }

    /// The goal after this tick, by the transition table `next_target`.
    pub fn run(&self, report: &TickReport) -> (r: Option<CreepTarget>)
        ensures
            goal_view(r) == next_target(self@, report),
    {
        if !report.resolved {
            return None;
        }
        match self {
            CreepTarget::Harvest(_) => {
                if report.store_full {
                    return None;
                }
                match report.action {
                    Some(ResultCode::Success) => Some(self.copied()),
                    Some(ResultCode::Full) => None,
                    Some(ResultCode::NotInRange) => keep_after_move(self, report.movement),
                    Some(ResultCode::NoPath) => None,
                    _ => None,
                }
            },
            CreepTarget::Upgrade(_) => match report.action {
                Some(ResultCode::Success) => Some(self.copied()),
                Some(ResultCode::NotEnough) => None,
                Some(ResultCode::NotInRange) => keep_after_move(self, report.movement),
                Some(ResultCode::Busy) => Some(self.copied()),
                _ => None,
            },
            CreepTarget::Spawn(_) => match report.action {
                Some(ResultCode::Success) => None,
                Some(ResultCode::NotEnough) => match &report.best_node {
                    Some(n) => Some(CreepTarget::Harvest(n.clone())),
                    None => None,
                },
                Some(ResultCode::Full) => match &report.controller {
                    Some(c) => Some(CreepTarget::Upgrade(c.clone())),
                    None => None,
                },
                Some(ResultCode::NotInRange) => keep_after_move(self, report.movement),
                _ => None,
            },
            CreepTarget::Build(_) => match report.action {
                Some(ResultCode::Success) => Some(self.copied()),
                Some(ResultCode::NotFound) => None,
                Some(ResultCode::NotEnough) => None,
                Some(ResultCode::NotInRange) => keep_after_move(self, report.movement),
                _ => None,
            },
        }
    }
}

/// Whether a unit holding goal slot `goal` attempts its goal's action this
/// tick.
pub fn should_act(goal: &Option<CreepTarget>, resolved: bool, store_full: bool) -> (r: bool)
    ensures
        r == (match goal_view(*goal) {
            Some(t) => acts(t, resolved, store_full),
            None => false,
        }),
{
    match goal {
        Some(t) => t.should_act(resolved, store_full),
        None => false,
    }
}

/// Whether an action's result asks for a single movement step toward the
/// goal's object.
pub fn needs_move(code: ResultCode) -> (r: bool)
    ensures
        r == (code == ResultCode::NotInRange),
{
    match code {
        ResultCode::NotInRange => true,
        _ => false,
    }
}

/// The goal slot after this tick, by the transition table `next_target`.
pub fn advance(goal: &Option<CreepTarget>, report: &TickReport) -> (r: Option<CreepTarget>)
    ensures
        goal_view(r) == next_goal(goal_view(*goal), report),
{
    match goal {
        Some(t) => t.run(report),
        None => None,
    }
}

/// After a transition the goal is unchanged, cleared, harvesting at the node
/// the room reported best this tick, or upgrading the controller the room
/// reported this tick; a goal whose object did not resolve is always cleared.
pub proof fn lemma_next_goal_sound(g: Option<TargetView>, r: &TickReport)
    ensures
        ({
            let n = next_goal(g, r);
            ||| n == g
            ||| n is None
            ||| exists|b: String| r.best_node == Some(b) && n == Some(TargetView::Harvest(b@))
            ||| exists|c: String| r.controller == Some(c) && n == Some(TargetView::Upgrade(c@))
        }),
        !r.resolved ==> next_goal(g, r) is None,
{
    let n = next_goal(g, r);
    if let Some(b) = r.best_node {
        if n == Some(TargetView::Harvest(b@)) {
            assert(r.best_node == Some(b) && n == Some(TargetView::Harvest(b@)));
        }
    }
    if let Some(c) = r.controller {
        if n == Some(TargetView::Upgrade(c@)) {
            assert(r.controller == Some(c) && n == Some(TargetView::Upgrade(c@)));
        }
    }
}

/// Two transitions from the same goal on the same report give the same goal.
pub proof fn lemma_next_goal_deterministic(
    g1: Option<TargetView>,
    g2: Option<TargetView>,
    r1: &TickReport,
    r2: &TickReport,
)
    requires
        g1 == g2,
        r1 == r2,
    ensures
        next_goal(g1, r1) == next_goal(g2, r2),
{
}

} // verus!
