use t5f::select::{Selectable, SelectableType, select_single, select_box, context_focus};
use t5f::team::TeamPlayer;

fn me() -> TeamPlayer { TeamPlayer::new(1, 0) }
fn other() -> TeamPlayer { TeamPlayer::new(2, 0) }

fn sel(selected: bool, context: SelectableType) -> Selectable {
    Selectable { selected, context }
}

#[test]
fn constructors_are_unselected() {
    assert_eq!(Selectable::single(), sel(false, SelectableType::Single));
    assert_eq!(Selectable::multiselect(), sel(false, SelectableType::MultiSelect));
    assert_eq!(Selectable::clear(), sel(false, SelectableType::Clear));
}

#[test]
fn plain_click_selects_only_the_clicked_object() {
    let mut objects = vec![
        sel(true, SelectableType::MultiSelect),
        sel(false, SelectableType::MultiSelect),
        sel(true, SelectableType::MultiSelect),
    ];
    let owners = vec![me(), me(), other()];
    let activate = select_single(&mut objects, &owners, me(), Some(1), false);
    assert!(activate);
    assert_eq!(objects, vec![
        sel(false, SelectableType::MultiSelect),
        sel(true, SelectableType::MultiSelect),
        sel(true, SelectableType::MultiSelect),
    ]);
}

#[test]
fn shift_click_adds_multiselect_objects_only() {
    let owners = vec![me(), me(), me()];
    let mut objects = vec![
        sel(true, SelectableType::MultiSelect),
        sel(false, SelectableType::MultiSelect),
        sel(false, SelectableType::Single),
    ];
    assert!(select_single(&mut objects, &owners, me(), Some(1), true));
    assert!(objects[0].selected && objects[1].selected);
    assert!(select_single(&mut objects, &owners, me(), Some(2), true));
    assert!(!objects[2].selected);
}

#[test]
fn shift_click_with_nothing_selected_acts_as_plain_click() {
    let owners = vec![me(), me()];
    let mut objects = vec![sel(false, SelectableType::Single), sel(false, SelectableType::Single)];
    assert!(select_single(&mut objects, &owners, me(), Some(0), true));
    assert_eq!(objects, vec![sel(true, SelectableType::Single), sel(false, SelectableType::Single)]);
}

#[test]
fn clicking_a_clearing_object_deselects_and_activates_nothing() {
    let owners = vec![me(), me(), other()];
    let mut objects = vec![
        sel(true, SelectableType::MultiSelect),
        sel(false, SelectableType::Clear),
        sel(true, SelectableType::MultiSelect),
    ];
    assert!(!select_single(&mut objects, &owners, me(), Some(1), false));
    assert_eq!(objects, vec![
        sel(false, SelectableType::MultiSelect),
        sel(false, SelectableType::Clear),
        sel(true, SelectableType::MultiSelect),
    ]);
}

#[test]
fn clicking_an_enemy_object_activates_it_without_selecting_it() {
    let owners = vec![me(), other()];
    let mut objects = vec![sel(true, SelectableType::MultiSelect), sel(false, SelectableType::Single)];
    assert!(select_single(&mut objects, &owners, me(), Some(1), false));
    assert_eq!(objects, vec![sel(false, SelectableType::MultiSelect), sel(false, SelectableType::Single)]);
}

#[test]
fn clicking_nothing_clears_unless_extending() {
    let owners = vec![me()];
    let mut objects = vec![sel(true, SelectableType::MultiSelect)];
    assert!(!select_single(&mut objects, &owners, me(), None, true));
    assert!(objects[0].selected);
    assert!(!select_single(&mut objects, &owners, me(), None, false));
    assert!(!objects[0].selected);
}

#[test]
fn box_selects_multiselect_objects_of_the_player_inside() {
    let owners = vec![me(), me(), other(), me(), me()];
    let mut objects = vec![
        sel(false, SelectableType::MultiSelect),
        sel(false, SelectableType::Single),
        sel(false, SelectableType::MultiSelect),
        sel(true, SelectableType::MultiSelect),
        sel(false, SelectableType::Clear),
    ];
    let inside = vec![true, true, true, false, true];
    select_box(&mut objects, &owners, me(), &inside, false);
    assert_eq!(objects, vec![
        sel(true, SelectableType::MultiSelect),
        sel(false, SelectableType::Single),
        sel(false, SelectableType::MultiSelect),
        sel(false, SelectableType::MultiSelect),
        sel(false, SelectableType::Clear),
    ]);
}

#[test]
fn box_around_a_lone_single_object_selects_it() {
    let owners = vec![me(), me()];
    let mut objects = vec![sel(false, SelectableType::Single), sel(true, SelectableType::MultiSelect)];
    let inside = vec![true, false];
    select_box(&mut objects, &owners, me(), &inside, true);
    assert_eq!(objects, vec![sel(true, SelectableType::Single), sel(true, SelectableType::MultiSelect)]);
}

#[test]
fn context_focus_needs_exactly_one_selected_single() {
    let one = vec![sel(true, SelectableType::MultiSelect), sel(true, SelectableType::Single)];
    assert_eq!(context_focus(&one), Some(1));
    let two = vec![sel(true, SelectableType::Single), sel(true, SelectableType::Single)];
    assert_eq!(context_focus(&two), None);
    let none = vec![sel(false, SelectableType::Single)];
    assert_eq!(context_focus(&none), None);
    assert_eq!(context_focus(&Vec::new()), None);
}
