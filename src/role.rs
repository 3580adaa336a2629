//! Roles and the goal each role picks for a unit that has none.

use vstd::prelude::*;
use crate::target::{goal_view, CreepTarget, TargetView};

verus! {

/// A unit's archetype, fixed when it is created.
#[derive(Clone, Copy, Debug, Default, PartialEq, Eq, Structural)]
pub enum CreepType {
    /// Gathers resource and spends it on the room's controller.
    #[default]
    Upgrader,
    /// Gathers resource and spends it on construction sites.
    Builder,
    /// Only announces itself; it takes no goal.
    Harvester,
}

/// A unit's resource store: what it holds and how much more it can take.
#[derive(Clone, Copy, Debug, PartialEq, Eq, Structural)]
pub struct Store {
    pub used: u32,
    pub free: u32,
}

impl Store {
    pub open spec fn full(self) -> bool {
        self.free == 0
    }

    pub open spec fn empty(self) -> bool {
        self.used == 0
    }

    /// No free capacity left.
    pub fn is_full(&self) -> (r: bool)
        ensures
            r == self.full(),
    {
        self.free == 0
    }

    /// The amount held, or `None` when nothing is stored.
    pub fn held(&self) -> (r: Option<u32>)
        ensures
            r == (if self.used == 0 { None::<u32> } else { Some(self.used) }),
    {
        if self.used == 0 {
            None
        } else {
            Some(self.used)
        }
    }

    /// Nothing stored.
    pub fn is_empty(&self) -> (r: bool)
        ensures
            r == self.empty(),
    {
        self.used == 0
    }
}

/// What a role needs to know of the unit's room this tick, each identifier
/// taken from a live object: the first construction site, the best resource
/// node, and the controller.
#[derive(Clone, Debug)]
pub struct RoomFacts {
    pub first_site: Option<String>,
    pub best_node: Option<String>,
    pub controller: Option<String>,
}

pub open spec fn harvest_at(n: Option<String>) -> Option<TargetView> {
    match n {
        Some(id) => Some(TargetView::Harvest(id@)),
        None => None,
    }
}

/// The goal a role picks for a unit without one. A builder that holds
/// anything builds at the first site, or harvests when there is none; an
/// empty builder harvests. A full upgrader upgrades; any other upgrader
/// harvests. A harvester takes no goal. Where the object the goal needs is
/// missing, the unit keeps no goal this tick.
pub open spec fn assigned(role: CreepType, store: Store, facts: &RoomFacts) -> Option<TargetView> {
    match role {
        CreepType::Builder => {
            if !store.empty() || store.full() {
                match facts.first_site {
                    Some(s) => Some(TargetView::Build(s@)),
                    None => harvest_at(facts.best_node),
                }
            } else {
                harvest_at(facts.best_node)
            }
        },
        CreepType::Upgrader => {
            if store.full() {
                match facts.controller {
                    Some(c) => Some(TargetView::Upgrade(c@)),
                    None => None,
                }
            } else {
                harvest_at(facts.best_node)
            }
        },
        CreepType::Harvester => None,
    }
}

pub open spec fn short_name_of(role: CreepType) -> Seq<char> {
    match role {
        CreepType::Builder => "bu"@,
        CreepType::Upgrader => "up"@,
        CreepType::Harvester => "ha"@,
    }
}

pub open spec fn name_of(role: CreepType) -> Seq<char> {
    match role {
        CreepType::Builder => "builder"@,
        CreepType::Upgrader => "upgrader"@,
        CreepType::Harvester => "harvester"@,
    }
}

fn harvest_goal(n: &Option<String>) -> (r: Option<CreepTarget>)
    ensures
        goal_view(r) == harvest_at(*n),
{
    match n {
        Some(id) => Some(CreepTarget::Harvest(id.clone())),
        None => None,
    }
}

impl CreepType {
    /// Two-letter tag of the role.
    pub fn short_name(&self) -> (r: String)
        ensures
            r@ == short_name_of(*self),
    {
        match self {
            CreepType::Builder => String::from_str("bu"),
            CreepType::Upgrader => String::from_str("up"),
            CreepType::Harvester => String::from_str("ha"),
        }
    }

    /// The role's name, as it is written in a unit's record.
    pub fn name(&self) -> (r: String)
        ensures
            r@ == name_of(*self),
    {
        match self {
            CreepType::Builder => String::from_str("builder"),
            CreepType::Upgrader => String::from_str("upgrader"),
            CreepType::Harvester => String::from_str("harvester"),
        }
    }

    /// The goal this role picks for a unit without one (see `assigned`).
    pub fn assign(&self, store: Store, facts: &RoomFacts) -> (r: Option<CreepTarget>)
        ensures
            goal_view(r) == assigned(*self, store, facts),
    {
        match self {
            CreepType::Builder => {
                if !store.is_empty() || store.is_full() {
                    match &facts.first_site {
                        Some(s) => Some(CreepTarget::Build(s.clone())),
                        None => harvest_goal(&facts.best_node),
                    }
                } else {
                    harvest_goal(&facts.best_node)
                }
            },
            CreepType::Upgrader => {
                if store.is_full() {
                    match &facts.controller {
                        Some(c) => Some(CreepTarget::Upgrade(c.clone())),
                        None => None,
                    }
                } else {
                    harvest_goal(&facts.best_node)
                }
            },
            CreepType::Harvester => None,
        }
    }

    /// The role's step of a tick: a unit that holds a goal keeps it; one
    /// without a goal gets the one its role picks.
    pub fn run(&self, current: &Option<CreepTarget>, store: Store, facts: &RoomFacts) -> (r: Option<
        CreepTarget,
    >)
        ensures
            goal_view(r) == (match goal_view(*current) {
                Some(t) => Some(t),
                None => assigned(*self, store, facts),
            }),
    {
        match current {
            Some(t) => Some(t.copied()),
            None => self.assign(store, facts),
        }
    }
}

} // verus!
