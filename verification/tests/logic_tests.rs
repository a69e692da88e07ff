use t5f::command::{
    CommandEvent, CommandType, Navigator, OrderKind, Target, idle_target, pursuit_target,
    right_click_order, selected_units,
};
use t5f::commander::AIDifficulty;
use t5f::int_ext::T5FIntExt;
use t5f::net::{ClientRequest, ClientRequests, NetMode, ServerCommand, ServerCommands, batch_requests};
use t5f::pathfinder::{PathFinder, route_cells, trip_routes};
use t5f::production::PowerObject;
use t5f::random::WichmannHill;
use t5f::select::{Selectable, SelectableType};
use t5f::slim::Slim;
use t5f::team::TeamPlayer;

fn me() -> TeamPlayer {
    TeamPlayer::new(1, 0)
}

#[test]
fn right_click_attacks_enemies_and_moves_otherwise() {
    let enemy = TeamPlayer::new(2, 0);
    let ally = TeamPlayer::new(1, 3);
    assert_eq!(right_click_order(false, true, Some(Some(enemy)), me()), Some(OrderKind::Attack));
    assert_eq!(right_click_order(false, true, Some(Some(ally)), me()), Some(OrderKind::Move));
    assert_eq!(right_click_order(false, true, Some(Some(me())), me()), Some(OrderKind::Move));
    assert_eq!(right_click_order(false, true, Some(None), me()), Some(OrderKind::Move));
    assert_eq!(right_click_order(false, true, None, me()), None);
    assert_eq!(right_click_order(true, true, Some(Some(enemy)), me()), None);
    assert_eq!(right_click_order(false, false, Some(Some(enemy)), me()), None);
}

#[test]
fn orders_go_to_the_selected_units_in_order() {
    let objects = vec![
        Selectable { selected: true, context: SelectableType::Single },
        Selectable { selected: false, context: SelectableType::Single },
        Selectable { selected: true, context: SelectableType::MultiSelect },
        Selectable { selected: true, context: SelectableType::Clear },
    ];
    assert_eq!(selected_units(&objects), vec![0, 2, 3]);
    assert_eq!(selected_units(&Vec::new()), Vec::<usize>::new());
}

#[test]
fn command_event_getters_follow_the_order() {
    let event: CommandEvent<u8, (i32, i32)> = CommandEvent {
        player: me(),
        objects: vec![4, 9],
        command: CommandType::Attack(12),
    };
    assert!(event.command.is_attack());
    assert!(!event.command.is_move());
    assert_eq!(event.attack(), Some(&vec![4, 9]));
    assert_eq!(event.activate(), None);
    assert_eq!(event.build(), None);
    assert_eq!(event.move_order(), None);
    let moving: CommandEvent<u8, (i32, i32)> = CommandEvent {
        player: me(),
        objects: vec![1],
        command: CommandType::Move((3, 4)),
    };
    assert_eq!(moving.move_order(), Some(&vec![1]));
    assert!(CommandType::<u8, u8>::Build(2).is_build());
    assert!(CommandType::<u8, u8>::Activate.is_activate());
}

#[test]
fn targets_of_pursuing_and_idle_weapons() {
    assert_eq!(Target::NoTarget.get_target(), None);
    assert_eq!(Target::AutoTarget(3).get_target(), Some(3));
    assert_eq!(Target::ManualTarget(8).get_target(), Some(8));

    assert_eq!(pursuit_target(Target::AutoTarget(3), 7, true), Target::ManualTarget(7));
    assert_eq!(pursuit_target(Target::AutoTarget(3), 7, false), Target::AutoTarget(3));
    assert_eq!(pursuit_target(Target::ManualTarget(7), 7, false), Target::NoTarget);
    assert_eq!(pursuit_target(Target::NoTarget, 7, false), Target::NoTarget);

    assert_eq!(idle_target(Target::ManualTarget(7), true, None), Target::NoTarget);
    assert_eq!(idle_target(Target::ManualTarget(7), true, Some(2)), Target::AutoTarget(2));
    assert_eq!(idle_target(Target::AutoTarget(3), true, Some(2)), Target::AutoTarget(3));
    assert_eq!(idle_target(Target::AutoTarget(3), false, Some(2)), Target::AutoTarget(2));
    assert_eq!(idle_target(Target::AutoTarget(3), false, None), Target::NoTarget);
    assert_eq!(idle_target(Target::NoTarget, false, Some(5)), Target::AutoTarget(5));
}

#[test]
fn requests_are_batched_per_frame() {
    let none: Vec<ClientRequest<u8>> = Vec::new();
    assert!(batch_requests(none).is_none());
    let batch = batch_requests(vec![ClientRequest::SpawnObject(4u8), ClientRequest::Empty])
        .expect("requests make a batch");
    assert_eq!(batch.requests.len(), 2);
    assert!(matches!(batch.requests[0], ClientRequest::SpawnObject(4)));
    assert!(matches!(batch.requests[1], ClientRequest::Empty));

    let one = ClientRequests::from(ClientRequest::SpawnObject(1u8));
    assert_eq!(one.requests.len(), 1);
    let commands = ServerCommands::from(vec![ServerCommand::Empty, ServerCommand::SpawnObject(2u8)]);
    assert_eq!(commands.commands.len(), 2);
    let single = ServerCommands::from(ServerCommand::SpawnObject(6u8));
    assert!(matches!(single.commands[0], ServerCommand::SpawnObject(6)));
    assert!(matches!(ClientRequest::<u8>::default(), ClientRequest::Empty));
    assert!(matches!(ServerCommand::<u8>::default(), ServerCommand::Empty));
}

#[test]
fn net_modes() {
    assert!(NetMode::Single.is_singleplayer());
    assert!(!NetMode::Single.is_multiplayer());
    for mode in [NetMode::Client, NetMode::Server, NetMode::Host] {
        assert!(!mode.is_singleplayer());
        assert!(mode.is_multiplayer());
    }
}

#[test]
fn path_finder_keeps_its_route_while_requeued() {
    let mut finder: PathFinder<(i32, i32)> = PathFinder::default();
    assert_eq!(finder.trip(), None);
    assert_eq!(finder.path(), None);
    assert!(finder.slim().is_none());

    finder.set_trip(((0, 0), (5, 5)));
    assert_eq!(finder.trip(), Some(((0, 0), (5, 5))));
    assert_eq!(finder.path(), None);

    finder = PathFinder::Ready(vec![(1, 1), (2, 2), (3, 3)]);
    finder.set_trip(((1, 1), (9, 9)));
    assert_eq!(finder.trip(), Some(((1, 1), (9, 9))));
    assert_eq!(finder.path(), Some(vec![(1, 1), (2, 2), (3, 3)]));

    finder.reach_waypoint();
    assert_eq!(finder.path(), Some(vec![(2, 2), (3, 3)]));
    assert_eq!(finder.trip(), Some(((1, 1), (9, 9))));

    let saved = finder.slim().expect("a requeued finder is saved");
    assert_eq!(saved.path(), Some(vec![(2, 2), (3, 3)]));
    assert_eq!(saved.trip(), Some(((1, 1), (9, 9))));
}

#[test]
fn route_cells_leave_out_the_start() {
    assert_eq!(route_cells(Some(vec![(0, 0), (0, 1), (1, 1)])), vec![(0, 1), (1, 1)]);
    assert_eq!(route_cells(Some(vec![(4, 4)])), Vec::<(isize, isize)>::new());
    assert_eq!(route_cells(None), Vec::<(isize, isize)>::new());
}

#[test]
fn pow_signum_keeps_the_sign_of_the_base() {
    assert_eq!((-3i32).pow_signum(2), -9);
    assert_eq!(3i32.pow_signum(2), 9);
    assert_eq!((-2i16).pow_signum(3), -8);
    assert_eq!(2i8.pow_signum(3), 8);
    assert_eq!(5i64.pow_signum(0), 1);
    assert_eq!((-5i64).pow_signum(0), -1);
    assert_eq!(0i128.pow_signum(0), 0);
    assert_eq!(0i32.pow_signum(4), 0);
    assert_eq!((-10i128).pow_signum(3), -1000);
}

#[test]
fn wichmann_hill_steps() {
    let mut random = WichmannHill::from_seeds(1, 2, 3);
    assert_eq!(random.advance(), (171, 344, 510));
    assert_eq!(random.advance(), (171 * 171 % 30269, 344 * 172 % 30307, 510 * 170 % 30323));
    let mut negative = WichmannHill::from_seeds(-1, -200, 30323);
    assert_eq!(negative.advance(), (-171, -(200 * 172 % 30307), 0));
}

#[test]
fn plain_data_types() {
    let power = PowerObject { power_gen: 10, power_drain: 3 };
    assert_eq!(power, PowerObject { power_gen: 10, power_drain: 3 });
    assert_ne!(AIDifficulty::Easy, AIDifficulty::Hard);
}

#[test]
fn orders_set_what_units_pursue() {
    let attack: CommandEvent<u8, (i32, i32)> = CommandEvent {
        player: me(),
        objects: vec![4, 9],
        command: CommandType::Attack(12),
    };
    let mut ordered = Navigator::new();
    assert_eq!(ordered.pursue, None);
    ordered.take_order(9, &attack);
    assert_eq!(ordered.pursue, Some(12));
    let mut bystander = Navigator { pursue: Some(3) };
    bystander.take_order(5, &attack);
    assert_eq!(bystander.pursue, Some(3));

    let moving: CommandEvent<u8, (i32, i32)> = CommandEvent {
        player: me(),
        objects: vec![9],
        command: CommandType::Move((1, 1)),
    };
    ordered.take_order(9, &moving);
    assert_eq!(ordered.pursue, None);
    let activate: CommandEvent<u8, (i32, i32)> = CommandEvent {
        player: me(),
        objects: vec![5],
        command: CommandType::Activate,
    };
    bystander.take_order(5, &activate);
    assert_eq!(bystander.pursue, Some(3));

    bystander.check_pursuit(true);
    assert_eq!(bystander.pursue, Some(3));
    bystander.check_pursuit(false);
    assert_eq!(bystander.pursue, None);
}

#[test]
fn clearing_a_path_keeps_a_waiting_trip() {
    let mut following: PathFinder<(i32, i32)> = PathFinder::Ready(Vec::new());
    following.clear_path();
    assert!(matches!(following, PathFinder::Idle));
    let mut requeued: PathFinder<(i32, i32)> = PathFinder::ReQueue(Vec::new(), (0, 0), (3, 3));
    requeued.clear_path();
    assert_eq!(requeued.path(), None);
    assert_eq!(requeued.trip(), Some(((0, 0), (3, 3))));
    let mut queued: PathFinder<(i32, i32)> = PathFinder::Queued((1, 2), (3, 4));
    queued.clear_path();
    assert_eq!(queued.trip(), Some(((1, 2), (3, 4))));
    let mut idle: PathFinder<(i32, i32)> = PathFinder::Idle;
    idle.clear_path();
    assert!(matches!(idle, PathFinder::Idle));
}

#[test]
fn a_trip_within_one_cell_first_gets_an_empty_route() {
    let found = Some(vec![(2, 2), (2, 3), (3, 3)]);
    assert_eq!(trip_routes((2, 2), (3, 3), found.clone()), vec![vec![(2, 3), (3, 3)]]);
    assert_eq!(trip_routes((2, 2), (2, 2), Some(vec![(2, 2)])), vec![vec![], vec![]]);
    assert_eq!(trip_routes((2, 2), (2, 2), found), vec![vec![], vec![(2, 3), (3, 3)]]);
    assert_eq!(trip_routes((0, 0), (5, 5), None), vec![Vec::<(isize, isize)>::new()]);
}
