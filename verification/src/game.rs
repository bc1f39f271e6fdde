//! The running game: the state of one session and the operations on it.

use crate::geometry::{Direction, Point};
use crate::laws::{lemma_score_bounded, lemma_step_keeps_sound, lemma_step_keeps_wf};
use crate::model::{
    at_least, fallback_apple, interval_for, GameView, APPLES_PER_LEVEL, APPLE_TRIES,
    BASE_TICK_MS, INITIAL_LENGTH, MIN_HEIGHT, MIN_TICK_MS, MIN_WIDTH, TICK_STEP_MS,
};
use crate::path::{covers, is_distinct, is_linked, is_within};
use crate::random::{draw, thread_generator};
use rand::rngs::ThreadRng;
use vstd::prelude::*;

verus! {

/// The cell an apple is put on when no free cell was found.
pub fn fallback_cell() -> (cell: Point)
    ensures
        cell == fallback_apple(),
{
    Point { x: 1, y: 1 }
}

/// One game session. Its fields are private: a session is made by
/// [`Game::new`] or [`Game::from_parts`] and changes only by the rules.
pub struct Game {
    snake: Vec<Point>,
    dir: Direction,
    next_dir: Direction,
    apple: Point,
    rng: ThreadRng,
    score: u32,
    width: u16,
    height: u16,
    game_over: bool,
    level: u32,
}

impl View for Game {
    type V = GameView;

    /// The session without its random number generator.
    closed spec fn view(&self) -> GameView {
        GameView {
            snake: self.snake@,
            dir: self.dir,
            next_dir: self.next_dir,
            apple: self.apple,
            score: self.score as nat,
            level: self.level as nat,
            width: self.width as nat,
            height: self.height as nat,
            over: self.game_over,
        }
    }
}

impl Game {
    /// Starts a session on a board of the given size, each extent raised to
    /// its minimum where it is below it. The snake and the counters are as
    /// [`GameView::initial`] says; the apple is put by [`Game::place_apple`].
    pub fn new(width: u16, height: u16) -> (game: Game)
        ensures
            game@.wf(),
            game@ == GameView::initial(
                at_least(width as nat, MIN_WIDTH as nat),
                at_least(height as nat, MIN_HEIGHT as nat),
                game@.apple,
            ),
    {
        let width = if width < MIN_WIDTH {
            MIN_WIDTH
        } else {
            width
        };
        let height = if height < MIN_HEIGHT {
            MIN_HEIGHT
        } else {
            height
        };
        let mid_x = width / 2;
        let mid_y = height / 2;
        let snake = vec![
            Point { x: mid_x, y: mid_y },
            Point { x: mid_x - 1, y: mid_y },
            Point { x: mid_x - 2, y: mid_y },
        ];
        let mut game = Game {
            snake,
            dir: Direction::Right,
            next_dir: Direction::Right,
            apple: Point { x: 0, y: 0 },
            rng: thread_generator(),
            score: 0,
            width,
            height,
            game_over: false,
            level: 1,
        };
        assert(game@.snake =~= GameView::initial(width as nat, height as nat, game@.apple).snake);
        game.place_apple();
        game
    }

    /// Goes on with a session from its parts. The parts are taken if they make
    /// a valid session: a board no smaller than the minimum, a snake of three
    /// cells or more that lies on the board, touches itself nowhere and runs
    /// from each cell to a neighbouring one, and an apple on the board that is
    /// off the snake or on the fallback cell. Score and level are those that
    /// go with the snake's length.
    pub fn from_parts(
        width: u16,
        height: u16,
        snake: Vec<Point>,
        dir: Direction,
        apple: Point,
    ) -> (game: Option<Game>)
        ensures
            game is Some <==> GameView::resumed(
                width as nat,
                height as nat,
                snake@,
                dir,
                apple,
            ).wf(),
            game matches Some(g) ==> g@ == GameView::resumed(
                width as nat,
                height as nat,
                snake@,
                dir,
                apple,
            ),
    {
        if width < MIN_WIDTH || height < MIN_HEIGHT || snake.len() < INITIAL_LENGTH {
            return None;
        }
        if !is_within(&snake, width, height) || !is_distinct(&snake) || !is_linked(&snake) {
            return None;
        }
        if apple.x >= width || apple.y >= height {
            return None;
        }
        if apple != fallback_cell() && covers(&snake, apple) {
            return None;
        }
        proof {
            lemma_score_bounded(
                GameView::resumed(width as nat, height as nat, snake@, dir, apple),
            );
        }
        let score = (snake.len() - INITIAL_LENGTH) as u32;
        Some(
            Game {
                snake,
                dir,
                next_dir: dir,
                apple,
                rng: thread_generator(),
                score,
                width,
                height,
                game_over: false,
                level: 1 + score / APPLES_PER_LEVEL,
            },
        )
    }

    /// Whether the session is valid. Every session that this module hands out
    /// is; the test is for callers that have no proof of it.
    pub fn is_valid(&self) -> (ok: bool)
        ensures
            ok == self@.wf(),
    {
        let board = self.width >= MIN_WIDTH && self.height >= MIN_HEIGHT;
        let counters = self.snake.len() >= INITIAL_LENGTH && self.snake.len() - INITIAL_LENGTH
            == self.score as usize && self.level >= 1 && self.level - 1 == self.score
            / APPLES_PER_LEVEL;
        let snake = is_within(&self.snake, self.width, self.height) && is_distinct(&self.snake)
            && is_linked(&self.snake);
        let apple = self.apple.x < self.width && self.apple.y < self.height && (self.apple
            == fallback_cell() || !covers(&self.snake, self.apple));
        board && counters && snake && apple
    }

    /// Whether the snake lies on the given cell.
    pub fn occupied(&self, cell: Point) -> (found: bool)
        ensures
            found == self@.snake.contains(cell),
    {
        covers(&self.snake, cell)
    }

    /// Moves the apple to the given cell if that cell lies on the board and the
    /// snake does not cover it, and says whether it did. Nothing else changes.
    pub fn offer_apple(&mut self, candidate: Point) -> (taken: bool)
        ensures
            taken == (candidate.within(old(self)@.width, old(self)@.height) && !old(
                self,
            )@.snake.contains(candidate)),
            final(self)@ == old(self)@.with_apple(if taken {
                candidate
            } else {
                old(self)@.apple
            }),
    {
        if candidate.x < self.width && candidate.y < self.height && !self.occupied(candidate) {
            self.apple = candidate;
            true
        } else {
            false
        }
    }

    /// Moves the apple to a random cell of the board that the snake does not
    /// cover. After [`APPLE_TRIES`] draws that all hit the snake the apple goes
    /// to the fallback cell, covered or not. Nothing else changes. Where the
    /// apple lay before does not matter.
    pub fn place_apple(&mut self)
        requires
            old(self)@.sound(),
        ensures
            old(self)@.replants_to(final(self)@),
    {
        let mut tries: u32 = 0;
        while tries < APPLE_TRIES
            invariant
                self@ == old(self)@,
                self@.sound(),
            decreases APPLE_TRIES - tries,
        {
            let x = draw(&mut self.rng, 0, self.width);
            let y = draw(&mut self.rng, 0, self.height);
            if self.offer_apple(Point { x, y }) {
                return;
            }
            tries += 1;
        }
        self.apple = fallback_cell();
    }

    /// Asks for a turn. A request for the exact reverse of the direction last
    /// applied is dropped; any other is queued for the next step.
    pub fn set_direction(&mut self, requested: Direction)
        ensures
            final(self)@ == old(self)@.turn(requested),
    {
        if !self.dir.is_opposite(requested) {
            self.next_dir = requested;
        }
    }

    /// Advances the session by one tick, as [`GameView::next`] says: a session
    /// that is over stays as it is; a move off the board or onto the snake ends
    /// it; a move onto the apple grows the snake, scores, and puts the apple
    /// elsewhere; any other move slides the snake by one cell.
    pub fn step(&mut self)
        requires
            old(self)@.wf(),
        ensures
            old(self)@.steps_to(final(self)@),
            final(self)@.wf(),
    {
        let ghost before = self@;
        if self.game_over {
            return;
        }
        self.dir = self.next_dir;
        let head = self.snake[0];
        let new_head = match head.neighbour(self.dir) {
            Some(cell) => cell,
            None => {
                self.game_over = true;
                proof {
                    assert(before.hits_wall());
                    lemma_step_keeps_wf(before, self@);
                }
                return;
            },
        };
        if new_head.x >= self.width || new_head.y >= self.height {
            self.game_over = true;
            proof {
                assert(before.hits_wall());
                lemma_step_keeps_wf(before, self@);
            }
            return;
        }
        assert(!before.hits_wall() && new_head == before.new_head());
        if self.occupied(new_head) {
            self.game_over = true;
            proof {
                assert(before.hits_self());
                lemma_step_keeps_wf(before, self@);
            }
            return;
        }
        assert(!before.hits_self());
        self.snake.insert(0, new_head);
        assert(self.snake@ =~= seq![new_head] + before.snake);
        if new_head == self.apple {
            proof {
                let grown = before.next(before.apple);
                lemma_step_keeps_sound(before, before.apple);
                lemma_score_bounded(grown);
                assert(before.score + 1 == grown.score);
            }
            self.score += 1;
            if self.score % APPLES_PER_LEVEL == 0 {
                self.level = 1 + self.score / APPLES_PER_LEVEL;
            }
            assert(self@ == before.next(before.apple));
            self.place_apple();
            proof {
                assert(self@ == before.next(self@.apple));
                lemma_step_keeps_wf(before, self@);
            }
        } else {
            self.snake.pop();
            proof {
                assert(self.snake@ =~= seq![new_head] + before.snake.drop_last());
                assert(self@ == before.next(self@.apple));
                lemma_step_keeps_wf(before, self@);
            }
        }
    }

    /// The snake's cells, head first.
    pub fn snake(&self) -> (cells: &Vec<Point>)
        ensures
            cells@ == self@.snake,
    {
        &self.snake
    }

    /// The direction applied by the latest step.
    pub fn direction(&self) -> (dir: Direction)
        ensures
            dir == self@.dir,
    {
        self.dir
    }

    /// The direction the next step will apply.
    pub fn next_direction(&self) -> (dir: Direction)
        ensures
            dir == self@.next_dir,
    {
        self.next_dir
    }

    /// The cell the apple lies on.
    pub fn apple(&self) -> (cell: Point)
        ensures
            cell == self@.apple,
    {
        self.apple
    }

    /// Apples eaten so far.
    pub fn score(&self) -> (score: u32)
        ensures
            score == self@.score,
    {
        self.score
    }

    /// The level, which starts at one.
    pub fn level(&self) -> (level: u32)
        ensures
            level == self@.level,
    {
        self.level
    }

    /// Columns of the board.
    pub fn width(&self) -> (width: u16)
        ensures
            width == self@.width,
    {
        self.width
    }

    /// Rows of the board.
    pub fn height(&self) -> (height: u16)
        ensures
            height == self@.height,
    {
        self.height
    }

    /// Whether the session has ended.
    pub fn is_over(&self) -> (over: bool)
        ensures
            over == self@.over,
    {
        self.game_over
    }

    /// Milliseconds between two automatic steps at the session's level.
    pub fn tick_interval(&self) -> (ms: u64)
        requires
            self@.wf(),
        ensures
            ms == interval_for(self@.level),
    {
        let reduction = (self.level - 1) as u64 * TICK_STEP_MS;
        if reduction > BASE_TICK_MS - MIN_TICK_MS {
            MIN_TICK_MS
        } else {
            BASE_TICK_MS - reduction
        }
    }
}

} // verus!
