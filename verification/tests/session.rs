use snake_game::session::{decode, start, IDLE_POLL_MS, PLAY_POLL_MS};
use snake_game::{Action, Command, Direction, Game, Key, Mode, Point};

fn running(cells: &[(u16, u16)], dir: Direction, apple: (u16, u16)) -> Mode {
    let snake: Vec<Point> = cells.iter().map(|&(x, y)| Point { x, y }).collect();
    match Game::from_parts(10, 5, snake, dir, Point { x: apple.0, y: apple.1 }) {
        Some(game) => Mode::Playing(game),
        None => panic!("the parts make no valid session"),
    }
}

fn finished() -> Mode {
    let mode = running(&[(9, 2), (8, 2), (7, 2)], Direction::Right, (0, 0));
    let (mode, stepped) = mode.on_elapsed(160);
    assert!(stepped);
    assert!(matches!(mode, Mode::GameOver(_)));
    mode
}

fn game_of(mode: &Mode) -> &Game {
    match mode {
        Mode::Playing(game) => game,
        Mode::GameOver(game) => game,
        Mode::Menu => panic!("the menu has no session"),
    }
}

#[test]
fn decode_knows_the_letters() {
    assert_eq!(decode(Key::Char('q')), Command::Quit);
    assert_eq!(decode(Key::Char('Q')), Command::Quit);
    assert_eq!(decode(Key::Char('r')), Command::Restart);
    assert_eq!(decode(Key::Char('R')), Command::Restart);
    assert_eq!(decode(Key::Char('w')), Command::Turn(Direction::Up));
    assert_eq!(decode(Key::Char('s')), Command::Turn(Direction::Down));
    assert_eq!(decode(Key::Char('a')), Command::Turn(Direction::Left));
    assert_eq!(decode(Key::Char('d')), Command::Turn(Direction::Right));
}

#[test]
fn decode_knows_the_arrows_and_enter() {
    assert_eq!(decode(Key::Up), Command::Turn(Direction::Up));
    assert_eq!(decode(Key::Down), Command::Turn(Direction::Down));
    assert_eq!(decode(Key::Left), Command::Turn(Direction::Left));
    assert_eq!(decode(Key::Right), Command::Turn(Direction::Right));
    assert_eq!(decode(Key::Enter), Command::Start);
}

#[test]
fn decode_ignores_every_other_key() {
    assert_eq!(decode(Key::Other), Command::Ignored);
    for c in ['W', 'A', 'S', 'D', 'x', ' ', '1', 'e', '\n'] {
        assert_eq!(decode(Key::Char(c)), Command::Ignored);
    }
}

#[test]
fn start_takes_the_frame_off_the_display() {
    let game = start(80, 24);
    assert_eq!((game.width(), game.height()), (78, 20));
    assert_eq!(game.snake()[0], Point { x: 39, y: 10 });
    let game = start(12, 9);
    assert_eq!((game.width(), game.height()), (10, 5));
    let game = start(65535, 65535);
    assert_eq!((game.width(), game.height()), (65533, 65531));
}

#[test]
fn start_on_a_tiny_display_uses_the_smallest_board() {
    for (columns, rows) in [(0u16, 0u16), (1, 3), (2, 4), (11, 8)] {
        let game = start(columns, rows);
        assert_eq!((game.width(), game.height()), (10, 5));
        assert_eq!(game.snake()[0], Point { x: 5, y: 2 });
    }
}

#[test]
fn menu_starts_on_enter() {
    let (mode, action) = Mode::Menu.on_command(Command::Start, 80, 24);
    assert_eq!(action, Action::Begin);
    match mode {
        Mode::Playing(game) => {
            assert_eq!((game.width(), game.height()), (78, 20));
            assert_eq!(game.score(), 0);
            assert!(!game.is_over());
        },
        _ => panic!("the game runs after a start"),
    }
}

#[test]
fn menu_quits() {
    let (mode, action) = Mode::Menu.on_command(Command::Quit, 80, 24);
    assert_eq!(action, Action::Exit);
    assert!(matches!(mode, Mode::Menu));
}

#[test]
fn menu_ignores_the_rest() {
    let others = [Command::Restart, Command::Turn(Direction::Up), Command::Ignored];
    for command in others {
        let (mode, action) = Mode::Menu.on_command(command, 80, 24);
        assert_eq!(action, Action::Continue);
        assert!(matches!(mode, Mode::Menu));
    }
}

#[test]
fn menu_never_steps() {
    let (mode, stepped) = Mode::Menu.on_elapsed(10_000);
    assert!(!stepped);
    assert!(matches!(mode, Mode::Menu));
}

#[test]
fn playing_turns_the_snake() {
    let mode = running(&[(5, 2), (4, 2), (3, 2)], Direction::Right, (0, 0));
    let (mode, action) = mode.on_command(Command::Turn(Direction::Up), 80, 24);
    assert_eq!(action, Action::Continue);
    assert!(matches!(mode, Mode::Playing(_)));
    assert_eq!(game_of(&mode).next_direction(), Direction::Up);
    assert_eq!(game_of(&mode).direction(), Direction::Right);
    let (mode, _) = mode.on_command(Command::Turn(Direction::Left), 80, 24);
    assert_eq!(game_of(&mode).next_direction(), Direction::Up);
    assert_eq!((game_of(&mode).width(), game_of(&mode).height()), (10, 5));
}

#[test]
fn playing_restarts_with_a_new_session() {
    let mode = running(&[(7, 2), (6, 2), (5, 2), (4, 2)], Direction::Right, (0, 0));
    let (mode, action) = mode.on_command(Command::Restart, 30, 14);
    assert_eq!(action, Action::Begin);
    assert!(matches!(mode, Mode::Playing(_)));
    let game = game_of(&mode);
    assert_eq!((game.width(), game.height()), (28, 10));
    assert_eq!(game.score(), 0);
    assert_eq!(game.snake().len(), 3);
    assert_eq!(game.snake()[0], Point { x: 14, y: 5 });
}

#[test]
fn playing_quits() {
    let mode = running(&[(5, 2), (4, 2), (3, 2)], Direction::Right, (0, 0));
    let (mode, action) = mode.on_command(Command::Quit, 80, 24);
    assert_eq!(action, Action::Exit);
    assert!(matches!(mode, Mode::Playing(_)));
    assert_eq!(game_of(&mode).snake()[0], Point { x: 5, y: 2 });
}

#[test]
fn playing_ignores_start_and_unknown_keys() {
    for command in [Command::Start, Command::Ignored] {
        let mode = running(&[(5, 2), (4, 2), (3, 2)], Direction::Right, (0, 0));
        let (mode, action) = mode.on_command(command, 80, 24);
        assert_eq!(action, Action::Continue);
        assert!(matches!(mode, Mode::Playing(_)));
        assert_eq!(game_of(&mode).next_direction(), Direction::Right);
        assert_eq!((game_of(&mode).width(), game_of(&mode).height()), (10, 5));
    }
}

#[test]
fn playing_steps_when_the_interval_has_passed() {
    let mode = running(&[(5, 2), (4, 2), (3, 2)], Direction::Right, (0, 0));
    let (mode, stepped) = mode.on_elapsed(159);
    assert!(!stepped);
    assert_eq!(game_of(&mode).snake()[0], Point { x: 5, y: 2 });
    let (mode, stepped) = mode.on_elapsed(160);
    assert!(stepped);
    assert!(matches!(mode, Mode::Playing(_)));
    assert_eq!(game_of(&mode).snake()[0], Point { x: 6, y: 2 });
    let (mode, stepped) = mode.on_elapsed(0);
    assert!(!stepped);
    let (mode, stepped) = mode.on_elapsed(u64::MAX);
    assert!(stepped);
    assert_eq!(game_of(&mode).snake()[0], Point { x: 7, y: 2 });
}

#[test]
fn playing_steps_sooner_on_a_higher_level() {
    let cells: Vec<(u16, u16)> = (0..8u16).rev().map(|x| (x, 3)).collect();
    let mode = running(&cells, Direction::Right, (0, 0));
    assert_eq!(game_of(&mode).level(), 2);
    let (mode, stepped) = mode.on_elapsed(149);
    assert!(!stepped);
    let (mode, stepped) = mode.on_elapsed(150);
    assert!(stepped);
    assert_eq!(game_of(&mode).snake()[0], Point { x: 8, y: 3 });
}

#[test]
fn playing_ends_on_the_step_that_crashes() {
    let mode = running(&[(8, 2), (7, 2), (6, 2)], Direction::Right, (0, 0));
    let (mode, stepped) = mode.on_elapsed(200);
    assert!(stepped);
    assert!(matches!(mode, Mode::Playing(_)));
    let (mode, stepped) = mode.on_elapsed(200);
    assert!(stepped);
    assert!(matches!(mode, Mode::GameOver(_)));
    assert!(game_of(&mode).is_over());
    assert_eq!(game_of(&mode).snake()[0], Point { x: 9, y: 2 });
}

#[test]
fn game_over_never_steps() {
    let (mode, stepped) = finished().on_elapsed(10_000);
    assert!(!stepped);
    assert!(matches!(mode, Mode::GameOver(_)));
}

#[test]
fn game_over_restarts() {
    let (mode, action) = finished().on_command(Command::Restart, 80, 24);
    assert_eq!(action, Action::Begin);
    assert!(matches!(mode, Mode::Playing(_)));
    let game = game_of(&mode);
    assert!(!game.is_over());
    assert_eq!((game.width(), game.height()), (78, 20));
    assert_eq!(game.snake().len(), 3);
}

#[test]
fn game_over_quits() {
    let (mode, action) = finished().on_command(Command::Quit, 80, 24);
    assert_eq!(action, Action::Exit);
    assert!(matches!(mode, Mode::GameOver(_)));
}

#[test]
fn game_over_ignores_the_rest() {
    for command in [Command::Start, Command::Turn(Direction::Up), Command::Ignored] {
        let (mode, action) = finished().on_command(command, 80, 24);
        assert_eq!(action, Action::Continue);
        assert!(matches!(mode, Mode::GameOver(_)));
        assert_eq!(game_of(&mode).next_direction(), Direction::Right);
    }
}

#[test]
fn poll_timeout_is_short_only_while_playing() {
    assert_eq!(Mode::Menu.poll_timeout_ms(), 200);
    assert_eq!(finished().poll_timeout_ms(), 200);
    let mode = running(&[(5, 2), (4, 2), (3, 2)], Direction::Right, (0, 0));
    assert_eq!(mode.poll_timeout_ms(), 16);
    assert_eq!(PLAY_POLL_MS, 16);
    assert_eq!(IDLE_POLL_MS, 200);
}

#[test]
fn modes_made_by_the_transitions_are_valid() {
    assert!(Mode::Menu.is_valid());
    let (mode, _) = Mode::Menu.on_command(decode(Key::Enter), 40, 20);
    assert!(mode.is_valid());
    let (mode, _) = mode.on_command(decode(Key::Char('w')), 40, 20);
    assert!(mode.is_valid());
    let mut mode = mode;
    for _ in 0..40 {
        let (next, _) = mode.on_elapsed(1000);
        mode = next;
        assert!(mode.is_valid());
    }
    assert!(matches!(mode, Mode::GameOver(_)));
    assert!(finished().is_valid());
}
