//! Team and player ownership, and the relations between owners.

use vstd::prelude::*;

verus! {

/// The owner of a game object: a team, and a player within that team.
#[derive(Debug, Default, Clone, Copy, PartialEq, Eq, Structural, Hash)]
pub struct TeamPlayer {
    pub team: usize,
    pub player: usize,
}

impl TeamPlayer {
    /// The owner that the local player controls: team 1, player 0.
    pub fn player_id() -> (r: TeamPlayer)
        ensures
            r.team == 1,
            r.player == 0,
    {
        TeamPlayer { team: 1, player: 0 }
    }

    pub fn new(team: usize, player: usize) -> (r: Self)
        ensures
            r.team == team,
            r.player == player,
    {
        Self { team, player }
    }

    pub fn team(&self) -> (r: usize)
        ensures
            r == self.team,
    {
        self.team
    }

    pub fn player(&self) -> (r: usize)
        ensures
            r == self.player,
    {
        self.player
    }

    pub fn reassign(&mut self, team: usize, player: usize)
        ensures
            final(self).team == team,
            final(self).player == player,
    {
        self.team = team;
        self.player = player;
    }
}


/// Both owners are the very same player of the same team.
pub open spec fn same_player(a: TeamPlayer, b: TeamPlayer) -> bool {
    a.team == b.team && a.player == b.player
}

/// The owners are different players of the same team.
pub open spec fn allied(a: TeamPlayer, b: TeamPlayer) -> bool {
    a.team == b.team && a.player != b.player
}

/// The owners are on the same team (the same player, or allies).
pub open spec fn same_team(a: TeamPlayer, b: TeamPlayer) -> bool {
    a.team == b.team
}

/// The owners are on different teams.
pub open spec fn hostile(a: TeamPlayer, b: TeamPlayer) -> bool {
    a.team != b.team
}

/// The message of the error returned when an entity has no owner.
pub open spec fn not_owned_message() -> Seq<char> {
    "Entity is not owned."@
}

fn not_owned_error() -> (r: String)
    ensures
        r@ == not_owned_message(),
{
    "Entity is not owned.".to_owned()
}

/// Which owners' objects a weapon may target, relative to its own owner.
#[derive(Debug, Clone, Copy, PartialEq, Eq, Structural)]
pub enum TargetForce {
    /// Objects of the weapon's own player.
    Mine,
    /// Objects of the other players of the weapon's team.
    Ally,
    /// Objects of the weapon's team: its own player's and its allies'.
    Team,
    /// Objects of the other teams.
    Enemy,
}

/// Whether an object owned by `other` belongs to the group that `force` names,
/// seen from `id`.
pub open spec fn in_force(force: TargetForce, id: TeamPlayer, other: TeamPlayer) -> bool {
    match force {
        TargetForce::Mine => same_player(other, id),
        TargetForce::Ally => allied(other, id),
        TargetForce::Team => same_team(other, id),
        TargetForce::Enemy => hostile(other, id),
    }
}

/// Whether the objects owned by `layer` are searched when a weapon of `id`
/// looks for targets of the given force.
pub fn layer_in_force(force: TargetForce, id: TeamPlayer, layer: TeamPlayer) -> (r: bool)
    ensures
        r == in_force(force, id, layer),
{
    match force {
        TargetForce::Mine => layer.team() == id.team() && layer.player() == id.player(),
        TargetForce::Ally => layer.team() == id.team() && layer.player() != id.player(),
        TargetForce::Team => layer.team() == id.team(),
        TargetForce::Enemy => layer.team() != id.team(),
    }
}

/// The answer of an ownership question about an entity whose owner is `owner`
/// (`None` when the entity has no owner): `Err` with the not-owned message when
/// there is no owner, else `Ok` of the relation on the owner.
pub open spec fn owner_relation(owner: Option<TeamPlayer>, holds: spec_fn(TeamPlayer) -> bool, r: Result<bool, String>) -> bool {
    match owner {
        Some(o) => r == Ok::<bool, String>(holds(o)),
        None => r matches Err(m) && m@ == not_owned_message(),
    }
}

/// Whether an entity, whose owner is `owner`, belongs to the player `player_id`.
pub fn is_players(owner: Option<TeamPlayer>, player_id: TeamPlayer) -> (r: Result<bool, String>)
    ensures
        owner_relation(owner, |o: TeamPlayer| same_player(o, player_id), r),
{
    match owner {
        Some(x) => Ok(x.team() == player_id.team() && x.player() == player_id.player()),
        None => Err(not_owned_error()),
    }
}

/// Whether an entity, whose owner is `owner`, belongs to an ally of `player_id`.
pub fn is_ally(owner: Option<TeamPlayer>, player_id: TeamPlayer) -> (r: Result<bool, String>)
    ensures
        owner_relation(owner, |o: TeamPlayer| allied(o, player_id), r),
{
    match owner {
        Some(x) => Ok(x.team() == player_id.team() && x.player() != player_id.player()),
        None => Err(not_owned_error()),
    }
}

/// Whether an entity, whose owner is `owner`, belongs to `player_id` or an ally.
pub fn is_players_or_ally(owner: Option<TeamPlayer>, player_id: TeamPlayer) -> (r: Result<bool, String>)
    ensures
        owner_relation(owner, |o: TeamPlayer| same_team(o, player_id), r),
{
    match owner {
        Some(x) => Ok(x.team() == player_id.team()),
        None => Err(not_owned_error()),
    }
}

/// Whether an entity, whose owner is `owner`, belongs to an enemy of `player_id`.
pub fn is_enemy(owner: Option<TeamPlayer>, player_id: TeamPlayer) -> (r: Result<bool, String>)
    ensures
        owner_relation(owner, |o: TeamPlayer| hostile(o, player_id), r),
{
    match owner {
        Some(x) => Ok(x.team() != player_id.team()),
        None => Err(not_owned_error()),
    }
}

/// Every owner stands in exactly one relation to a player: it is that player,
/// an ally of it, or an enemy of it; "the player or an ally" is the union of
/// the first two, and "enemy" is its complement.
pub proof fn lemma_relations_partition(o: TeamPlayer, id: TeamPlayer)
    ensures
        same_player(o, id) || allied(o, id) || hostile(o, id),
        !(same_player(o, id) && allied(o, id)),
        !(same_player(o, id) && hostile(o, id)),
        !(allied(o, id) && hostile(o, id)),
        same_team(o, id) == (same_player(o, id) || allied(o, id)),
        hostile(o, id) == !same_team(o, id),
{
}

/// The relations are symmetric: if `a` is the same player as, an ally of, or an
/// enemy of `b`, then `b` is so of `a`.
pub proof fn lemma_relations_symmetric(a: TeamPlayer, b: TeamPlayer)
    ensures
        same_player(a, b) == same_player(b, a),
        allied(a, b) == allied(b, a),
        same_team(a, b) == same_team(b, a),
        hostile(a, b) == hostile(b, a),
{
}

/// The layers searched for a target force are exactly those whose owner the
/// ownership questions answer with `Ok(true)` for that force.
pub proof fn lemma_force_matches_relations(id: TeamPlayer, layer: TeamPlayer)
    ensures
        in_force(TargetForce::Mine, id, layer) == same_player(layer, id),
        in_force(TargetForce::Ally, id, layer) == allied(layer, id),
        in_force(TargetForce::Team, id, layer) == same_team(layer, id),
        in_force(TargetForce::Enemy, id, layer) == hostile(layer, id),
{
}

} // verus!
