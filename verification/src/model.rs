//! The game as a mathematical value, and its rules as functions on that value.
//!
//! Every contract of the engine is stated over [`GameView`]. The one thing the
//! rules leave open is where an eaten apple reappears: that cell is a parameter
//! of [`GameView::next`], and [`GameView::steps_to`] says what must hold of it.

use crate::geometry::{Direction, Point};
use crate::path::{all_within, linked};
use vstd::prelude::*;

verus! {

/// Smallest board width; a narrower request is widened to it.
pub const MIN_WIDTH: u16 = 10;

/// Smallest board height; a lower request is raised to it.
pub const MIN_HEIGHT: u16 = 5;

/// Length of the snake when a session starts.
pub const INITIAL_LENGTH: usize = 3;

/// Apples to eat for each new level.
pub const APPLES_PER_LEVEL: u32 = 5;

/// Random cells tried for a new apple before the fallback cell is taken.
pub const APPLE_TRIES: u32 = 1000;

/// Tick interval at level one, in milliseconds.
pub const BASE_TICK_MS: u64 = 160;

/// Milliseconds by which each further level shortens the tick interval.
pub const TICK_STEP_MS: u64 = 10;

/// Shortest tick interval, in milliseconds.
pub const MIN_TICK_MS: u64 = 40;

/// The cell an apple is put on when every random try landed on the snake.
pub open spec fn fallback_apple() -> Point {
    Point { x: 1, y: 1 }
}

/// The requested extent of a board, raised to the minimum where it is below it.
pub open spec fn at_least(requested: nat, minimum: nat) -> nat {
    if requested < minimum {
        minimum
    } else {
        requested
    }
}

/// Level reached with the given score.
pub open spec fn level_for(score: nat) -> nat {
    1 + score / (APPLES_PER_LEVEL as nat)
}

/// Milliseconds between two automatic steps at the given level: the base
/// interval, shortened for each level above the first, never below the floor.
pub open spec fn interval_for(level: nat) -> nat {
    let reduction = (level - 1) * TICK_STEP_MS;
    if BASE_TICK_MS - reduction < MIN_TICK_MS {
        MIN_TICK_MS as nat
    } else {
        (BASE_TICK_MS - reduction) as nat
    }
}

/// One game session as a mathematical value.
pub struct GameView {
    /// The snake's cells, head first.
    pub snake: Seq<Point>,
    /// The direction applied by the latest step.
    pub dir: Direction,
    /// The direction the next step will apply.
    pub next_dir: Direction,
    pub apple: Point,
    pub score: nat,
    pub level: nat,
    pub width: nat,
    pub height: nat,
    pub over: bool,
}

impl GameView {
    /// The session that starts on a board of the given size with the apple on
    /// the given cell: three cells in a row ending at the centre, facing right.
    pub open spec fn initial(width: nat, height: nat, apple: Point) -> GameView {
        let x = (width / 2) as u16;
        let y = (height / 2) as u16;
        GameView {
            snake: seq![
                Point { x, y },
                Point { x: (x - 1) as u16, y },
                Point { x: (x - 2) as u16, y },
            ],
            dir: Direction::Right,
            next_dir: Direction::Right,
            apple,
            score: 0,
            level: 1,
            width,
            height,
            over: false,
        }
    }

    /// The session that goes on from the given parts: nothing is queued but
    /// the direction itself, and the score is what the snake has grown by.
    pub open spec fn resumed(
        width: nat,
        height: nat,
        snake: Seq<Point>,
        dir: Direction,
        apple: Point,
    ) -> GameView {
        let score = if snake.len() < INITIAL_LENGTH {
            0
        } else {
            (snake.len() - INITIAL_LENGTH) as nat
        };
        GameView {
            snake,
            dir,
            next_dir: dir,
            apple,
            score,
            level: level_for(score),
            width,
            height,
            over: false,
        }
    }

    /// Everything that holds of a session at all times, but for where the
    /// apple lies relative to the snake.
    pub open spec fn sound(self) -> bool {
        &&& MIN_WIDTH <= self.width <= u16::MAX
        &&& MIN_HEIGHT <= self.height <= u16::MAX
        &&& self.snake.len() == self.score + INITIAL_LENGTH
        &&& self.level == level_for(self.score)
        &&& all_within(self.snake, self.width, self.height)
        &&& self.snake.no_duplicates()
        &&& linked(self.snake)
    }

    /// The apple lies on the board and off the snake, or on the fallback cell.
    pub open spec fn apple_settled(self) -> bool {
        &&& self.apple.within(self.width, self.height)
        &&& (!self.snake.contains(self.apple) || self.apple == fallback_apple())
    }

    /// The invariant of a session.
    pub open spec fn wf(self) -> bool {
        self.sound() && self.apple_settled()
    }

    /// The session with the apple on another cell.
    pub open spec fn with_apple(self, apple: Point) -> GameView {
        GameView { apple, ..self }
    }

    /// The session after a request to turn: the request is dropped when it is
    /// the reverse of the direction last applied, and queued otherwise.
    pub open spec fn turn(self, requested: Direction) -> GameView {
        if requested == self.dir.opposite() {
            self
        } else {
            GameView { next_dir: requested, ..self }
        }
    }

    /// Where the next step takes the head, as unbounded integers.
    pub open spec fn target(self) -> (int, int) {
        self.snake[0].shifted(self.next_dir)
    }

    /// The next step would leave the board.
    pub open spec fn hits_wall(self) -> bool {
        let t = self.target();
        t.0 < 0 || t.0 >= self.width || t.1 < 0 || t.1 >= self.height
    }

    /// The cell the head moves to, where the next step stays on the board.
    pub open spec fn new_head(self) -> Point {
        Point { x: self.target().0 as u16, y: self.target().1 as u16 }
    }

    /// The next step would run into the snake. Every cell counts, the tail too.
    pub open spec fn hits_self(self) -> bool {
        !self.hits_wall() && self.snake.contains(self.new_head())
    }

    /// The next step ends the session.
    pub open spec fn crashes(self) -> bool {
        !self.over && (self.hits_wall() || self.hits_self())
    }

    /// The next step eats the apple.
    pub open spec fn eats(self) -> bool {
        !self.over && !self.hits_wall() && !self.hits_self() && self.new_head() == self.apple
    }

    /// The next step moves the snake without growth.
    pub open spec fn slides(self) -> bool {
        !self.over && !self.hits_wall() && !self.hits_self() && self.new_head() != self.apple
    }

    /// The session after one step, where `relocated` is the cell on which the
    /// apple reappears if this step eats it.
    pub open spec fn next(self, relocated: Point) -> GameView {
        if self.over {
            self
        } else if self.hits_wall() || self.hits_self() {
            GameView { dir: self.next_dir, over: true, ..self }
        } else if self.new_head() == self.apple {
            GameView {
                dir: self.next_dir,
                snake: seq![self.new_head()] + self.snake,
                score: self.score + 1,
                level: if (self.score + 1) % (APPLES_PER_LEVEL as nat) == 0 {
                    level_for(self.score + 1)
                } else {
                    self.level
                },
                apple: relocated,
                ..self
            }
        } else {
            GameView {
                dir: self.next_dir,
                snake: seq![self.new_head()] + self.snake.drop_last(),
                ..self
            }
        }
    }

    /// `after` is a session that one step can lead to from `self`: the rules
    /// fix all of it but the cell of a relocated apple, which is settled.
    pub open spec fn steps_to(self, after: GameView) -> bool {
        &&& after == self.next(after.apple)
        &&& self.eats() ==> after.apple_settled()
    }

    /// `after` is the session with its apple put anew, on a settled cell.
    pub open spec fn replants_to(self, after: GameView) -> bool {
        after == self.with_apple(after.apple) && after.apple_settled()
    }

    /// `after` is a session that one step, one request to turn or one new
    /// placing of the apple can lead to.
    pub open spec fn moves_to(self, after: GameView) -> bool {
        ||| self.steps_to(after)
        ||| self.replants_to(after)
        ||| exists|requested: Direction| after == #[trigger] self.turn(requested)
    }

    /// The session has just started: the board is no smaller than the minimum,
    /// snake and counters are as [`GameView::initial`] says, the apple is settled.
    pub open spec fn starts(self) -> bool {
        &&& MIN_WIDTH <= self.width <= u16::MAX
        &&& MIN_HEIGHT <= self.height <= u16::MAX
        &&& self == GameView::initial(self.width, self.height, self.apple)
        &&& self.apple_settled()
    }
}

/// Each session of the sequence leads to the next by one step.
pub open spec fn is_run(trace: Seq<GameView>) -> bool {
    forall|i: int| 0 <= i < trace.len() - 1 ==> (#[trigger] trace[i]).steps_to(trace[i + 1])
}

/// The sequence is the course of one session from its start: each state
/// leads to the next by one step, one request to turn or one new placing of
/// the apple.
pub open spec fn is_history(trace: Seq<GameView>) -> bool {
    &&& trace.len() > 0
    &&& trace[0].starts()
    &&& forall|i: int| 0 <= i < trace.len() - 1 ==> (#[trigger] trace[i]).moves_to(trace[i + 1])
}

} // verus!
