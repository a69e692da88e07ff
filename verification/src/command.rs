//! Orders given to units, and how weapons pick their targets.

use vstd::prelude::*;
use crate::identifiers::EntityId;
use crate::select::Selectable;
use crate::team::{TeamPlayer, hostile};

verus! {

/// An order. `B` is what a build order carries, `V` a point on the ground.
#[derive(Debug, Clone)]
pub enum CommandType<B, V> {
    Activate,
    Attack(EntityId),
    Build(B),
    Move(V),
}

impl<B, V> CommandType<B, V> {
    pub fn is_activate(&self) -> (r: bool)
        ensures
            r == (*self is Activate),
    {
        match self {
            Self::Activate => true,
            _ => false,
        }
    }

    pub fn is_attack(&self) -> (r: bool)
        ensures
            r == (*self is Attack),
    {
        match self {
            Self::Attack(_) => true,
            _ => false,
        }
    }

    pub fn is_build(&self) -> (r: bool)
        ensures
            r == (*self is Build),
    {
        match self {
            Self::Build(_) => true,
            _ => false,
        }
    }

    pub fn is_move(&self) -> (r: bool)
        ensures
            r == (*self is Move),
    {
        match self {
            Self::Move(_) => true,
            _ => false,
        }
    }
}

/// An order given by `player` to the `objects`.
#[derive(Debug, Clone)]
pub struct CommandEvent<B, V> {
    pub player: TeamPlayer,
    pub objects: Vec<EntityId>,
    pub command: CommandType<B, V>,
}

impl<B, V> CommandEvent<B, V> {
    /// The ordered objects, when the order is an activation.
    pub fn activate(&self) -> (r: Option<&Vec<EntityId>>)
        ensures
            r matches Some(o) ==> *o == self.objects,
            r is Some <==> self.command is Activate,
    {
        if self.command.is_activate() { Some(&self.objects) } else { None }
    }

    /// The ordered objects, when the order is an attack.
    pub fn attack(&self) -> (r: Option<&Vec<EntityId>>)
        ensures
            r matches Some(o) ==> *o == self.objects,
            r is Some <==> self.command is Attack,
    {
        if self.command.is_attack() { Some(&self.objects) } else { None }
    }

    /// The ordered objects, when the order is to build.
    pub fn build(&self) -> (r: Option<&Vec<EntityId>>)
        ensures
            r matches Some(o) ==> *o == self.objects,
            r is Some <==> self.command is Build,
    {
        if self.command.is_build() { Some(&self.objects) } else { None }
    }

    /// The ordered objects, when the order is a move.
    pub fn move_order(&self) -> (r: Option<&Vec<EntityId>>)
        ensures
            r matches Some(o) ==> *o == self.objects,
            r is Some <==> self.command is Move,
    {
        if self.command.is_move() { Some(&self.objects) } else { None }
    }
}

/// The kind of order a right click gives to the selected units.
#[derive(Debug, Clone, Copy, PartialEq, Eq, Structural)]
pub enum OrderKind {
    /// Attack the clicked object.
    Attack,
    /// Move to the clicked point.
    Move,
}

/// The order that a right click gives: none while a building is being placed,
/// when the right button was not released, or when the cursor is over nothing;
/// an attack when the object under the cursor belongs to an enemy; else a
/// move. `hit` is `None` when the cursor is over nothing, else the owner of
/// the object under it (`None` when that object has no owner).
pub open spec fn right_click_order_spec(placing: bool, released: bool, hit: Option<Option<TeamPlayer>>, player: TeamPlayer) -> Option<OrderKind> {
    if placing || !released {
        None
    } else {
        match hit {
            None => None,
            Some(owner) => Some(
                if (owner matches Some(o) && hostile(o, player)) { OrderKind::Attack } else { OrderKind::Move },
            ),
        }
    }
}

/// The order that a right click gives, if any.
pub fn right_click_order(placing: bool, released: bool, hit: Option<Option<TeamPlayer>>, player: TeamPlayer) -> (r: Option<OrderKind>)
    ensures
        r == right_click_order_spec(placing, released, hit, player),
{
    if placing {
        return None;
    }
    if !released {
        return None;
    }
    match hit {
        Some(owner) => {
            let enemy = match crate::team::is_enemy(owner, player) {
                Ok(t) => t,
                Err(_) => false,
            };
            if enemy { Some(OrderKind::Attack) } else { Some(OrderKind::Move) }
        },
        None => None,
    }
}

/// The positions, in order, of the selected objects.
pub open spec fn selected_positions(objects: Seq<Selectable>) -> Seq<usize>
    decreases objects.len(),
{
    if objects.len() == 0 {
        Seq::empty()
    } else {
        let rest = selected_positions(objects.drop_last());
        if objects.last().selected { rest.push((objects.len() - 1) as usize) } else { rest }
    }
}

/// The positions, in order, of the selected objects: those an order goes to.
pub fn selected_units(objects: &Vec<Selectable>) -> (r: Vec<usize>)
    ensures
        r@ == selected_positions(objects@),
{
    let mut r: Vec<usize> = Vec::new();
    let mut i: usize = 0;
    while i < objects.len()
        invariant
            0 <= i <= objects.len(),
            r@ == selected_positions(objects@.take(i as int)),
        decreases objects.len() - i,
    {
        proof {
            assert(objects@.take(i + 1).drop_last() =~= objects@.take(i as int));
        }
        if objects[i].selected {
            r.push(i);
        }
        i = i + 1;
    }
    proof { assert(objects@.take(objects.len() as int) =~= objects@); }
    r
}

/// What a weapon aims at: nothing, a target it picked itself, or the target
/// its unit was ordered to attack.
#[derive(Debug, Clone, Copy, PartialEq, Eq, Structural)]
pub enum Target {
    NoTarget,
    AutoTarget(EntityId),
    ManualTarget(EntityId),
}

impl Target {
    /// The entity aimed at, if any.
    pub fn get_target(&self) -> (r: Option<EntityId>)
        ensures
            r == match *self {
                Target::NoTarget => None,
                Target::AutoTarget(e) => Some(e),
                Target::ManualTarget(e) => Some(e),
            },
    {
        match self {
            Target::NoTarget => None,
            Target::AutoTarget(e) => Some(*e),
            Target::ManualTarget(e) => Some(*e),
        }
    }
}

/// The aim of a weapon whose unit pursues `pursued`: out of range it aims at
/// the pursued object; in range it keeps a target it picked itself and drops
/// any other.
pub open spec fn pursuit_target_spec(current: Target, pursued: EntityId, out_of_range: bool) -> Target {
    if out_of_range {
        Target::ManualTarget(pursued)
    } else if current is AutoTarget {
        current
    } else {
        Target::NoTarget
    }
}

/// The aim of a weapon whose unit pursues `pursued`, which is `out_of_range`
/// of the weapon or not.
pub fn pursuit_target(current: Target, pursued: EntityId, out_of_range: bool) -> (r: Target)
    ensures
        r == pursuit_target_spec(current, pursued, out_of_range),
{
    if out_of_range {
        Target::ManualTarget(pursued)
    } else if let Target::AutoTarget(_) = current {
        current
    } else {
        Target::NoTarget
    }
}

/// The aim of a weapon whose unit pursues nothing: an ordered target is
/// dropped, a picked target is kept while it exists and is in range, and a
/// weapon left without a target picks the first candidate found, if any.
/// `auto_in_range` tells whether the picked target (if the aim is one) still
/// exists within range.
pub open spec fn idle_target_spec(current: Target, auto_in_range: bool, candidate: Option<EntityId>) -> Target {
    let kept = match current {
        Target::ManualTarget(_) => Target::NoTarget,
        Target::AutoTarget(_) => if auto_in_range { current } else { Target::NoTarget },
        Target::NoTarget => Target::NoTarget,
    };
    match kept {
        Target::NoTarget => match candidate {
            Some(e) => Target::AutoTarget(e),
            None => Target::NoTarget,
        },
        _ => kept,
    }
}

/// The aim of a weapon whose unit pursues nothing.
pub fn idle_target(current: Target, auto_in_range: bool, candidate: Option<EntityId>) -> (r: Target)
    ensures
        r == idle_target_spec(current, auto_in_range, candidate),
{
    let mut target = current;
    if let Target::ManualTarget(_) = target {
        target = Target::NoTarget;
    } else if let Target::AutoTarget(_) = target {
        if !auto_in_range {
            target = Target::NoTarget;
        }
    }
    if let Target::NoTarget = target {
        if let Some(e) = candidate {
            target = Target::AutoTarget(e);
        }
    }
    target
}

/// What a unit pursues: the object it was ordered to attack, if any.
#[derive(Debug, Clone, Copy, PartialEq, Eq, Structural)]
pub struct Navigator {
    pub pursue: Option<EntityId>,
}

/// What a unit pursues after an order: an ordered unit pursues the target of
/// an attack and gives up its pursuit for a move; other orders, and units that
/// were not ordered, keep what they pursued.
pub open spec fn pursuit_after_order<B, V>(objects: Seq<EntityId>, command: CommandType<B, V>, unit: EntityId, current: Option<EntityId>) -> Option<EntityId> {
    if objects.contains(unit) {
        match command {
            CommandType::Attack(target) => Some(target),
            CommandType::Move(_) => None,
            _ => current,
        }
    } else {
        current
    }
}

/// Whether `unit` is one of `objects`.
fn is_ordered(objects: &Vec<EntityId>, unit: EntityId) -> (r: bool)
    ensures
        r == objects@.contains(unit),
{
    let mut i: usize = 0;
    while i < objects.len()
        invariant
            0 <= i <= objects.len(),
            forall|j: int| 0 <= j < i ==> objects@[j] != unit,
        decreases objects.len() - i,
    {
        if objects[i] == unit {
            return true;
        }
        i = i + 1;
    }
    false
}

impl Navigator {
    /// A unit that pursues nothing.
    pub fn new() -> (r: Self)
        ensures
            r.pursue is None,
    {
        Navigator { pursue: None }
    }

    /// Takes an order given to some units: `unit` is this navigator's unit.
    pub fn take_order<B, V>(&mut self, unit: EntityId, order: &CommandEvent<B, V>)
        ensures
            final(self).pursue == pursuit_after_order(order.objects@, order.command, unit, old(self).pursue),
    {
        if is_ordered(&order.objects, unit) {
            match &order.command {
                CommandType::Attack(target) => {
                    self.pursue = Some(*target);
                },
                CommandType::Move(_) => {
                    self.pursue = None;
                },
                _ => {},
            }
        }
    }

    /// Ends the pursuit when its target no longer exists: `target_exists` tells
    /// whether the pursued object is still there.
    pub fn check_pursuit(&mut self, target_exists: bool)
        ensures
            final(self).pursue == (if target_exists { old(self).pursue } else { None }),
    {
        if !target_exists {
            self.pursue = None;
        }
    }
}

/// An ordered unit pursues the target of an attack order until that target is
/// gone; a move order ends its pursuit; units that were not ordered keep what
/// they pursued.
pub proof fn lemma_orders_set_pursuit<B, V>(objects: Seq<EntityId>, command: CommandType<B, V>, unit: EntityId, current: Option<EntityId>)
    ensures
        objects.contains(unit) ==> (command matches CommandType::Attack(t) ==> pursuit_after_order(objects, command, unit, current) == Some(t)),
        objects.contains(unit) && command is Move ==> pursuit_after_order(objects, command, unit, current) is None,
        !objects.contains(unit) ==> pursuit_after_order(objects, command, unit, current) == current,
{
}

/// A weapon of an idle unit never keeps aiming at an ordered target, and a
/// weapon of a pursuing unit aims only at the pursued object or at a target it
/// picked itself.
pub proof fn lemma_targets_follow_orders(current: Target, pursued: EntityId, out_of_range: bool, auto_in_range: bool, candidate: Option<EntityId>)
    ensures
        !(idle_target_spec(current, auto_in_range, candidate) is ManualTarget),
        pursuit_target_spec(current, pursued, out_of_range) matches Target::ManualTarget(e) ==> e == pursued,
        out_of_range ==> pursuit_target_spec(current, pursued, out_of_range) == Target::ManualTarget(pursued),
{
}

} // verus!
