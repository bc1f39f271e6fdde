//! The decisions of the application loop: which screen is shown, what a key
//! press does on it, and when the snake advances.
//!
//! The loop itself reads the keyboard, measures time and draws. It hands each
//! key and each elapsed time to the functions here and does what they say.

use crate::game::Game;
use crate::geometry::Direction;
use crate::model::{at_least, interval_for, GameView, MIN_HEIGHT, MIN_WIDTH};
use vstd::prelude::*;

verus! {

/// Columns of the display that the frame around the board takes.
pub const FRAME_COLUMNS: u16 = 2;

/// Rows of the display that the frame and the text lines take.
pub const FRAME_ROWS: u16 = 4;

/// Longest wait for a key while a game runs, in milliseconds.
pub const PLAY_POLL_MS: u64 = 16;

/// Longest wait for a key on the menu and after a game, in milliseconds.
pub const IDLE_POLL_MS: u64 = 200;

/// A key press, as far as the game tells keys apart.
#[derive(Clone, Copy, PartialEq, Eq, Structural, Debug)]
pub enum Key {
    Char(char),
    Enter,
    Up,
    Down,
    Left,
    Right,
    Other,
}

/// What a key press asks for.
#[derive(Clone, Copy, PartialEq, Eq, Structural, Debug)]
pub enum Command {
    Turn(Direction),
    Start,
    Restart,
    Quit,
    Ignored,
}

/// What the loop does after a key press: go on, go on with the time since
/// the last step counted from now because a session has begun, or leave.
#[derive(Clone, Copy, PartialEq, Eq, Structural, Debug)]
pub enum Action {
    Continue,
    Begin,
    Exit,
}

/// The command bound to a key: `q` quits and `r` restarts in either case,
/// Enter starts, the arrows and the lower-case letters `w`, `a`, `s`, `d` turn
/// the snake, and every other key is ignored.
pub open spec fn command_of(key: Key) -> Command {
    match key {
        Key::Char(c) => if c == 'q' || c == 'Q' {
            Command::Quit
        } else if c == 'r' || c == 'R' {
            Command::Restart
        } else if c == 'w' {
            Command::Turn(Direction::Up)
        } else if c == 's' {
            Command::Turn(Direction::Down)
        } else if c == 'a' {
            Command::Turn(Direction::Left)
        } else if c == 'd' {
            Command::Turn(Direction::Right)
        } else {
            Command::Ignored
        },
        Key::Enter => Command::Start,
        Key::Up => Command::Turn(Direction::Up),
        Key::Down => Command::Turn(Direction::Down),
        Key::Left => Command::Turn(Direction::Left),
        Key::Right => Command::Turn(Direction::Right),
        Key::Other => Command::Ignored,
    }
}

/// Decodes a key press.
pub fn decode(key: Key) -> (command: Command)
    ensures
        command == command_of(key),
{
    match key {
        Key::Char('q') | Key::Char('Q') => Command::Quit,
        Key::Char('r') | Key::Char('R') => Command::Restart,
        Key::Char('w') | Key::Up => Command::Turn(Direction::Up),
        Key::Char('s') | Key::Down => Command::Turn(Direction::Down),
        Key::Char('a') | Key::Left => Command::Turn(Direction::Left),
        Key::Char('d') | Key::Right => Command::Turn(Direction::Right),
        Key::Enter => Command::Start,
        _ => Command::Ignored,
    }
}

/// Extent of the board that fits a display of the given extent once the frame
/// is taken off, before the minimum is applied.
pub open spec fn inside(extent: nat, frame: nat) -> nat {
    if extent < frame {
        0
    } else {
        (extent - frame) as nat
    }
}

/// `game` is a session newly started for a display of the given size.
pub open spec fn fresh_for(game: GameView, columns: u16, rows: u16) -> bool {
    &&& game.wf()
    &&& game == GameView::initial(
        at_least(inside(columns as nat, FRAME_COLUMNS as nat), MIN_WIDTH as nat),
        at_least(inside(rows as nat, FRAME_ROWS as nat), MIN_HEIGHT as nat),
        game.apple,
    )
}

/// Starts a session on the largest board that a display of the given size has
/// room for.
pub fn start(columns: u16, rows: u16) -> (game: Game)
    ensures
        fresh_for(game@, columns, rows),
{
    let width = if columns < FRAME_COLUMNS {
        0
    } else {
        columns - FRAME_COLUMNS
    };
    let height = if rows < FRAME_ROWS {
        0
    } else {
        rows - FRAME_ROWS
    };
    Game::new(width, height)
}

/// The screen the application shows, with the session it belongs to.
pub enum Mode {
    Menu,
    Playing(Game),
    GameOver(Game),
}

/// A [`Mode`] as a mathematical value.
pub enum ModeView {
    Menu,
    Playing(GameView),
    GameOver(GameView),
}

impl ModeView {
    /// A running game is not over, and a finished one is.
    pub open spec fn wf(self) -> bool {
        match self {
            ModeView::Menu => true,
            ModeView::Playing(game) => game.wf() && !game.over,
            ModeView::GameOver(game) => game.wf() && game.over,
        }
    }

    /// The session on screen; meaningless on the menu.
    pub open spec fn game(self) -> GameView {
        match self {
            ModeView::Menu => arbitrary(),
            ModeView::Playing(game) => game,
            ModeView::GameOver(game) => game,
        }
    }

    /// The command replaces whatever session there is by a new one.
    pub open spec fn begins(self, command: Command) -> bool {
        match self {
            ModeView::Menu => command == Command::Start,
            _ => command == Command::Restart,
        }
    }

    /// The mode after a command, where `fresh` is the session that is started
    /// if the command begins one. A turn reaches the running game only; what a
    /// mode has no use for changes nothing.
    pub open spec fn after(self, command: Command, fresh: GameView) -> ModeView {
        if self.begins(command) {
            ModeView::Playing(fresh)
        } else {
            match (self, command) {
                (ModeView::Playing(game), Command::Turn(d)) => ModeView::Playing(game.turn(d)),
                _ => self,
            }
        }
    }

    /// The mode that the given state of the session belongs to once a game runs.
    pub open spec fn showing(game: GameView) -> ModeView {
        if game.over {
            ModeView::GameOver(game)
        } else {
            ModeView::Playing(game)
        }
    }

    /// Whether the time that has passed since the last step calls for the next.
    pub open spec fn due(self, elapsed_ms: u64) -> bool {
        self matches ModeView::Playing(game) && elapsed_ms >= interval_for(game.level)
    }
}

impl View for Mode {
    type V = ModeView;

    open spec fn view(&self) -> ModeView {
        match self {
            Mode::Menu => ModeView::Menu,
            Mode::Playing(game) => ModeView::Playing(game@),
            Mode::GameOver(game) => ModeView::GameOver(game@),
        }
    }
}

impl Mode {
    /// Whether the mode is valid. Every mode that the transitions hand out
    /// is; the test is for callers that have no proof of it.
    pub fn is_valid(&self) -> (ok: bool)
        ensures
            ok == self@.wf(),
    {
        match self {
            Mode::Menu => true,
            Mode::Playing(game) => game.is_valid() && !game.is_over(),
            Mode::GameOver(game) => game.is_valid() && game.is_over(),
        }
    }

    /// Applies a command. Quitting leaves the mode alone and tells the loop to
    /// exit; starting from the menu and restarting from a game, running or
    /// over, begin a new session sized to the display; a turn is passed on to
    /// the running game.
    pub fn on_command(self, command: Command, columns: u16, rows: u16) -> (next: (Mode, Action))
        requires
            self@.wf(),
        ensures
            next.0@.wf(),
            next.0@ == self@.after(command, next.0@.game()),
            self@.begins(command) ==> fresh_for(next.0@.game(), columns, rows),
            next.1 == if command == Command::Quit {
                Action::Exit
            } else if self@.begins(command) {
                Action::Begin
            } else {
                Action::Continue
            },
    {
        match (self, command) {
            (mode, Command::Quit) => (mode, Action::Exit),
            (Mode::Menu, Command::Start) => (Mode::Playing(start(columns, rows)), Action::Begin),
            (Mode::Playing(_), Command::Restart) => (
                Mode::Playing(start(columns, rows)),
                Action::Begin,
            ),
            (Mode::GameOver(_), Command::Restart) => (
                Mode::Playing(start(columns, rows)),
                Action::Begin,
            ),
            (Mode::Playing(mut game), Command::Turn(d)) => {
                game.set_direction(d);
                (Mode::Playing(game), Action::Continue)
            },
            (mode, _) => (mode, Action::Continue),
        }
    }

    /// Tells the mode how long ago the snake last moved. A running game whose
    /// tick interval has passed takes one step, and the screen changes to the
    /// end of the game if that step ended it. The result says whether a step
    /// was taken, which is when the loop starts measuring anew.
    pub fn on_elapsed(self, elapsed_ms: u64) -> (next: (Mode, bool))
        requires
            self@.wf(),
        ensures
            next.0@.wf(),
            next.1 == self@.due(elapsed_ms),
            !next.1 ==> next.0@ == self@,
            next.1 ==> self@.game().steps_to(next.0@.game()) && next.0@ == ModeView::showing(
                next.0@.game(),
            ),
    {
        match self {
            Mode::Playing(mut game) => {
                if elapsed_ms >= game.tick_interval() {
                    game.step();
                    if game.is_over() {
                        (Mode::GameOver(game), true)
                    } else {
                        (Mode::Playing(game), true)
                    }
                } else {
                    (Mode::Playing(game), false)
                }
            },
            mode => (mode, false),
        }
    }

    /// Longest time the loop may wait for a key before it looks at the clock
    /// again: short while a game runs, longer on the other screens.
    pub fn poll_timeout_ms(&self) -> (ms: u64)
        ensures
            ms == if self@ is Playing {
                PLAY_POLL_MS
            } else {
                IDLE_POLL_MS
            },
    {
        match self {
            Mode::Playing(_) => PLAY_POLL_MS,
            _ => IDLE_POLL_MS,
        }
    }
}

} // verus!
