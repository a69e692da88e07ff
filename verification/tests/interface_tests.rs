use t5f::menu::{
    ButtonInteraction, CampaignButtonsEvent, CustomGameUIPlugin, GameState, MainMenuButtons,
    MainMenuUIPlugin, MenuAction, MenuPanel, SkirmishButtonsEvent, TopMenuButtonsEvent, menu_actions,
};
use t5f::placement::{
    BoxSelectEffect, BoxSelectStatus, CurrentPlacement, PlacementEffect, PlacementInput,
    PlacementStatus, SelectionKind, UiHit, box_select_step,
};

#[test]
fn menu_buttons_and_their_actions() {
    assert_eq!(GameState::default(), GameState::AssetLoading);
    assert_eq!(
        menu_actions(MainMenuButtons::TopMenu(TopMenuButtonsEvent::Campaign)),
        vec![MenuAction::Close(MenuPanel::CustomGame), MenuAction::Toggle(MenuPanel::Campaign)]
    );
    assert_eq!(
        menu_actions(MainMenuButtons::TopMenu(TopMenuButtonsEvent::Skirmish)),
        vec![MenuAction::Close(MenuPanel::Campaign), MenuAction::Toggle(MenuPanel::CustomGame)]
    );
    assert_eq!(menu_actions(MainMenuButtons::TopMenu(TopMenuButtonsEvent::Quit)), vec![MenuAction::Quit]);
    assert_eq!(
        menu_actions(MainMenuButtons::Campaign(CampaignButtonsEvent::Continue)),
        vec![
            MenuAction::OpenSaveFile("saves/developer.ron".to_string()),
            MenuAction::SetState(GameState::MatchLoadingState)
        ]
    );
    assert_eq!(
        menu_actions(MainMenuButtons::Campaign(CampaignButtonsEvent::LevelSelect)),
        vec![
            MenuAction::OpenSaveFile("levels/developer.ron".to_string()),
            MenuAction::SetState(GameState::MatchLoadingState)
        ]
    );
    assert_eq!(
        menu_actions(MainMenuButtons::Skirmish(SkirmishButtonsEvent::NewGame)),
        vec![MenuAction::SetState(GameState::CustomGame)]
    );
    assert_eq!(
        menu_actions(MainMenuButtons::Skirmish(SkirmishButtonsEvent::Back)),
        vec![MenuAction::Close(MenuPanel::CustomGame)]
    );
    assert_eq!(menu_actions(MainMenuButtons::TopMenu(TopMenuButtonsEvent::Options)), vec![]);
    assert_eq!(menu_actions(MainMenuButtons::Campaign(CampaignButtonsEvent::LoadGame)), vec![]);
}

#[test]
fn only_visible_pressed_buttons_send() {
    let quit = MainMenuButtons::TopMenu(TopMenuButtonsEvent::Quit);
    assert_eq!(
        MainMenuUIPlugin::main_menu_ui_button_event_writer(ButtonInteraction::Pressed, quit, true),
        Some(quit)
    );
    assert_eq!(
        MainMenuUIPlugin::main_menu_ui_button_event_writer(ButtonInteraction::Pressed, quit, false),
        None
    );
    assert_eq!(
        MainMenuUIPlugin::main_menu_ui_button_event_writer(ButtonInteraction::Hovered, quit, true),
        None
    );
    assert!(CustomGameUIPlugin::send_uptick(ButtonInteraction::Pressed, true));
    assert!(!CustomGameUIPlugin::send_uptick(ButtonInteraction::Untouched, true));
    assert!(!CustomGameUIPlugin::send_uptick(ButtonInteraction::Pressed, false));
}

#[test]
fn the_ticker_counts_up() {
    assert_eq!(CustomGameUIPlugin::uptick("41"), "42");
    assert_eq!(CustomGameUIPlugin::uptick("0"), "1");
    assert_eq!(CustomGameUIPlugin::uptick("-1"), "0");
    assert_eq!(CustomGameUIPlugin::uptick("+9"), "10");
    assert!(CustomGameUIPlugin::can_uptick("7"));
    assert!(!CustomGameUIPlugin::can_uptick("abc"));
    assert!(!CustomGameUIPlugin::can_uptick(""));
    assert!(!CustomGameUIPlugin::can_uptick("2147483647"));
    assert!(CustomGameUIPlugin::can_uptick("2147483646"));
}

#[test]
fn a_ticked_count_can_be_ticked_again() {
    let once = CustomGameUIPlugin::uptick("41");
    assert!(CustomGameUIPlugin::can_uptick(&once));
    assert_eq!(CustomGameUIPlugin::uptick(&once), "43");
    let low = CustomGameUIPlugin::uptick("-2147483648");
    assert_eq!(low, "-2147483647");
    assert!(CustomGameUIPlugin::can_uptick(&low));
    assert_eq!(CustomGameUIPlugin::uptick("2147483646"), "2147483647");
    assert!(!CustomGameUIPlugin::can_uptick("2147483647"));
}

fn input(new_ghost: Option<u64>, pressed: bool, released: bool) -> PlacementInput {
    PlacementInput { new_ghost, pressed, released, constructor_alive: true }
}

#[test]
fn a_placement_runs_from_start_to_release() {
    let mut placement: CurrentPlacement<u8, 2> = CurrentPlacement::new();
    assert!(!placement.placing());
    assert!(matches!(placement.step(input(None, true, false)), PlacementEffect::Nothing));

    placement.status = PlacementStatus::Began(7);
    assert!(placement.needs_ghost());
    assert!(placement.placing());
    assert!(matches!(placement.step(input(Some(40), false, false)), PlacementEffect::AnnounceBegin));
    assert!(matches!(placement.status, PlacementStatus::Placing(7, 40)));
    assert_eq!(placement.placing, [false, true]);

    assert!(matches!(placement.step(input(None, false, false)), PlacementEffect::FollowCursor));
    assert!(matches!(placement.step(input(None, true, false)), PlacementEffect::FollowCursor));
    assert!(matches!(placement.status, PlacementStatus::Rotating(7, 40)));
    assert!(matches!(placement.step(input(None, false, false)), PlacementEffect::RotateGhost));
    assert!(matches!(placement.step(input(None, false, true)), PlacementEffect::RotateAndFinish));
    assert!(matches!(placement.status, PlacementStatus::Completed(7, 40)));
    assert!(matches!(placement.step(input(None, false, false)), PlacementEffect::Release(7, 40)));
    assert!(matches!(placement.status, PlacementStatus::Idle));
    assert_eq!(placement.placing, [true, true]);
    assert!(placement.placing());
    placement.step(input(None, false, false));
    placement.step(input(None, false, false));
    assert!(!placement.placing());
}

#[test]
fn a_placement_is_canceled_when_its_constructor_dies() {
    let mut placement: CurrentPlacement<u8, 1> = CurrentPlacement::new();
    placement.status = PlacementStatus::Placing(3, 11);
    let dead = PlacementInput { new_ghost: None, pressed: false, released: false, constructor_alive: false };
    assert!(matches!(placement.step(dead), PlacementEffect::FollowCursor));
    assert!(matches!(placement.status, PlacementStatus::Canceled(3, 11)));
    assert!(matches!(placement.step(dead), PlacementEffect::Despawn(11)));
    assert!(matches!(placement.status, PlacementStatus::Idle));
}

#[test]
fn interface_hits_mark_the_recent_frames() {
    let mut hit: UiHit<3> = UiHit::new();
    hit.step(false, false);
    assert_eq!(hit.hitting, [false, false, false]);
    hit.step(true, false);
    assert_eq!(hit.hitting, [true, true, true]);
    assert!(hit.holding);
    hit.step(false, false);
    assert_eq!(hit.hitting, [true, false, false]);
    hit.step(false, true);
    assert_eq!(hit.hitting, [true, true, true]);
    assert!(!hit.holding);
    hit.step(false, false);
    hit.step(false, false);
    hit.step(false, false);
    assert_eq!(hit.hitting, [false, false, false]);
}

#[test]
fn selection_box_drags_and_finishes() {
    let (idle, dragging) = (BoxSelectStatus::Idle, BoxSelectStatus::Dragging);
    assert_eq!(box_select_step(idle, false, true, false, false), (dragging, BoxSelectEffect::StartDrag));
    assert_eq!(box_select_step(idle, false, false, false, false), (idle, BoxSelectEffect::Nothing));
    assert_eq!(box_select_step(idle, true, true, false, false), (idle, BoxSelectEffect::Nothing));
    assert_eq!(box_select_step(dragging, false, false, false, true), (dragging, BoxSelectEffect::Drag));
    assert_eq!(
        box_select_step(dragging, false, false, true, true),
        (idle, BoxSelectEffect::Finish(SelectionKind::Box))
    );
    assert_eq!(
        box_select_step(dragging, false, false, true, false),
        (idle, BoxSelectEffect::Finish(SelectionKind::Single))
    );
    assert_eq!(box_select_step(dragging, true, false, true, true), (dragging, BoxSelectEffect::Nothing));
}
