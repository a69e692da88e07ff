use t5f::team::{TeamPlayer, TargetForce, is_players, is_ally, is_players_or_ally, is_enemy, layer_in_force};

#[test]
fn team_player_accessors() {
    let mut tp = TeamPlayer::new(2, 3);
    assert_eq!(tp.team(), 2);
    assert_eq!(tp.player(), 3);
    tp.reassign(4, 5);
    assert_eq!((tp.team, tp.player), (4, 5));
    assert_eq!(TeamPlayer::player_id(), TeamPlayer::new(1, 0));
}

#[test]
fn ownership_relations_partition() {
    let me = TeamPlayer::new(1, 0);
    let mine = TeamPlayer::new(1, 0);
    let ally = TeamPlayer::new(1, 2);
    let enemy = TeamPlayer::new(2, 0);
    assert_eq!(is_players(Some(mine), me), Ok(true));
    assert_eq!(is_ally(Some(mine), me), Ok(false));
    assert_eq!(is_enemy(Some(mine), me), Ok(false));
    assert_eq!(is_ally(Some(ally), me), Ok(true));
    assert_eq!(is_players_or_ally(Some(ally), me), Ok(true));
    assert_eq!(is_enemy(Some(enemy), me), Ok(true));
    assert_eq!(is_players_or_ally(Some(enemy), me), Ok(false));
}

#[test]
fn ownership_of_unowned_entity_is_an_error() {
    let me = TeamPlayer::new(1, 0);
    let msg = "Entity is not owned.".to_string();
    assert_eq!(is_players(None, me), Err(msg.clone()));
    assert_eq!(is_ally(None, me), Err(msg.clone()));
    assert_eq!(is_players_or_ally(None, me), Err(msg.clone()));
    assert_eq!(is_enemy(None, me), Err(msg));
}

#[test]
fn layers_searched_by_force() {
    let me = TeamPlayer::new(1, 0);
    let ally = TeamPlayer::new(1, 1);
    let enemy = TeamPlayer::new(3, 0);
    assert!(layer_in_force(TargetForce::Mine, me, me));
    assert!(!layer_in_force(TargetForce::Mine, me, ally));
    assert!(layer_in_force(TargetForce::Ally, me, ally));
    assert!(!layer_in_force(TargetForce::Ally, me, me));
    assert!(layer_in_force(TargetForce::Team, me, ally));
    assert!(layer_in_force(TargetForce::Team, me, me));
    assert!(!layer_in_force(TargetForce::Team, me, enemy));
    assert!(layer_in_force(TargetForce::Enemy, me, enemy));
    assert!(!layer_in_force(TargetForce::Enemy, me, ally));
}
