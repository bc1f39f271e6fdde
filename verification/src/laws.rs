//! What holds of every session, proved from the rules in [`crate::model`].

use crate::counting::lemma_distinct_cells_fit;
use crate::geometry::{Direction, Point};
use crate::model::{
    fallback_apple, interval_for, is_history, is_run, level_for, GameView, APPLES_PER_LEVEL,
    INITIAL_LENGTH, MIN_HEIGHT, MIN_TICK_MS, MIN_WIDTH,
};
use vstd::prelude::*;

verus! {

/// The snake of a sound session is no longer than the board's area, so the
/// score stays far below the largest 32-bit number.
pub proof fn lemma_score_bounded(s: GameView)
    requires
        s.sound(),
    ensures
        s.snake.len() <= s.width * s.height,
        s.score + 3 <= 0xffff * 0xffff,
{
    lemma_distinct_cells_fit(s.snake, s.width, s.height);
    assert(s.width * s.height <= 0xffff * 0xffff) by (nonlinear_arith)
        requires
            s.width <= 0xffff,
            s.height <= 0xffff,
    ;
}

/// A step keeps a session sound, wherever an eaten apple reappears.
pub proof fn lemma_step_keeps_sound(s: GameView, relocated: Point)
    requires
        s.sound(),
    ensures
        s.next(relocated).sound(),
{
    let t = s.next(relocated);
    if !s.over && !s.hits_wall() && !s.hits_self() {
        let h = s.new_head();
        assert(h.within(s.width, s.height));
        assert(h.adjacent(s.snake[0]));
        assert forall|i: int| 0 <= i < t.snake.len() implies (#[trigger] t.snake[i]).within(
            t.width,
            t.height,
        ) by {
            if i > 0 {
                assert(t.snake[i] == s.snake[i - 1]);
            }
        }
        assert forall|i: int, j: int| 0 <= i < t.snake.len() && 0 <= j < t.snake.len() && i != j
            implies t.snake[i] != t.snake[j] by {
            if i > 0 {
                assert(t.snake[i] == s.snake[i - 1]);
            }
            if j > 0 {
                assert(t.snake[j] == s.snake[j - 1]);
            }
        }
        assert forall|i: int| 0 <= i < t.snake.len() - 1 implies (#[trigger] t.snake[i]).adjacent(
            t.snake[i + 1],
        ) by {
            assert(t.snake[i + 1] == s.snake[i]);
            if i > 0 {
                assert(t.snake[i] == s.snake[i - 1]);
            }
        }
        if h == s.apple {
            let n = s.score + 1;
            if n % (APPLES_PER_LEVEL as nat) != 0 {
                assert(n / 5 == s.score / 5);
            }
        }
    }
}

/// A step keeps the invariant of a session; in particular the cells of the
/// snake stay pairwise distinct, whether the session goes on or is over.
pub proof fn lemma_step_keeps_wf(s: GameView, t: GameView)
    requires
        s.wf(),
        s.steps_to(t),
    ensures
        t.wf(),
        t.snake.no_duplicates(),
{
    lemma_step_keeps_sound(s, t.apple);
    if s.slides() {
        assert forall|i: int| 0 <= i < t.snake.len() && t.snake[i] == t.apple implies t.apple
            == fallback_apple() by {
            if i > 0 {
                assert(t.snake[i] == s.snake[i - 1]);
            }
        }
    }
}

/// A request to turn keeps the invariant of a session.
pub proof fn lemma_turn_keeps_wf(s: GameView, requested: Direction)
    requires
        s.wf(),
    ensures
        s.turn(requested).wf(),
{
}

/// On a board no smaller than the minimum a session starts with its three
/// cells on the board, in one row, each directly left of the one before it,
/// and the starting session is sound.
pub proof fn lemma_initial_snake(width: nat, height: nat, apple: Point)
    requires
        MIN_WIDTH <= width <= u16::MAX,
        MIN_HEIGHT <= height <= u16::MAX,
    ensures
        ({
            let snake = GameView::initial(width, height, apple).snake;
            &&& snake.len() == INITIAL_LENGTH
            &&& forall|i: int| 0 <= i < snake.len() ==> (#[trigger] snake[i]).within(width, height)
            &&& snake[0].y == snake[1].y
            &&& snake[1].y == snake[2].y
            &&& snake[0].x - 1 == snake[1].x
            &&& snake[1].x - 1 == snake[2].x
        }),
        GameView::initial(width, height, apple).sound(),
{
}

/// In the course of a session the invariant holds at every point, and so the
/// cells of the snake are pairwise distinct at every point, while the session
/// goes on and after it has ended.
pub proof fn lemma_snake_never_overlaps(trace: Seq<GameView>, at: int)
    requires
        is_history(trace),
        0 <= at < trace.len(),
    ensures
        trace[at].wf(),
        forall|i: int, j: int|
            0 <= i < j < trace[at].snake.len() ==> trace[at].snake[i] != trace[at].snake[j],
    decreases at,
{
    if at == 0 {
        lemma_initial_snake(trace[0].width, trace[0].height, trace[0].apple);
    } else {
        lemma_snake_never_overlaps(trace, at - 1);
        let s = trace[at - 1];
        let t = trace[at];
        assert(s.moves_to(t));
        if s.steps_to(t) {
            lemma_step_keeps_wf(s, t);
        } else if s.replants_to(t) {
        } else {
            let requested = choose|requested: Direction| t == #[trigger] s.turn(requested);
            lemma_turn_keeps_wf(s, requested);
        }
    }
}

/// A request for the reverse of the direction last applied changes nothing,
/// whichever of the four directions that is; any other request is queued and
/// changes nothing else.
pub proof fn lemma_reverse_is_dropped(s: GameView, requested: Direction)
    ensures
        requested == s.dir.opposite() ==> s.turn(requested) == s,
        requested != s.dir.opposite() ==> s.turn(requested) == (GameView {
            next_dir: requested,
            ..s
        }),
        s.dir == Direction::Up ==> s.turn(Direction::Down).next_dir == s.next_dir,
        s.dir == Direction::Down ==> s.turn(Direction::Up).next_dir == s.next_dir,
        s.dir == Direction::Left ==> s.turn(Direction::Right).next_dir == s.next_dir,
        s.dir == Direction::Right ==> s.turn(Direction::Left).next_dir == s.next_dir,
{
}

/// Steps that neither end the session nor eat the apple leave the length of
/// the snake as it was, however many they are: three, counted from the start
/// of a session.
pub proof fn lemma_sliding_keeps_length(trace: Seq<GameView>)
    requires
        trace.len() > 0,
        trace[0].wf(),
        is_run(trace),
        forall|i: int| 0 <= i < trace.len() - 1 ==> (#[trigger] trace[i]).slides(),
    ensures
        trace.last().wf(),
        trace.last().snake.len() == trace[0].snake.len(),
        trace.last().score == trace[0].score,
        trace[0].starts() ==> trace.last().snake.len() == INITIAL_LENGTH,
    decreases trace.len(),
{
    if trace.len() > 1 {
        let shorter = trace.drop_last();
        assert forall|i: int| 0 <= i < shorter.len() - 1 implies (#[trigger] shorter[i]).steps_to(
            shorter[i + 1],
        ) && shorter[i].slides() by {
            assert(shorter[i] == trace[i] && shorter[i + 1] == trace[i + 1]);
        }
        lemma_sliding_keeps_length(shorter);
        let s = trace[trace.len() - 2];
        assert(s == shorter.last());
        assert(s.steps_to(trace.last()) && s.slides());
        lemma_step_keeps_wf(s, trace.last());
    }
}

/// A step that eats the apple makes the snake one cell longer and the score
/// one higher, and moves the apple at once: to a cell of the board that the
/// snake does not cover, or to the fallback cell.
pub proof fn lemma_eating_grows(s: GameView, t: GameView)
    requires
        s.wf(),
        s.eats(),
        s.steps_to(t),
    ensures
        t.snake.len() == s.snake.len() + 1,
        t.score == s.score + 1,
        t.apple.within(t.width, t.height),
        !t.snake.contains(t.apple) || t.apple == fallback_apple(),
        !t.over,
{
}

/// The level follows the score: a step that brings the score to a multiple of
/// the apples per level sets the level to one more than their quotient, and
/// at every point of a session the level is that function of the score.
pub proof fn lemma_level_follows_score(s: GameView, t: GameView)
    requires
        s.wf(),
        s.steps_to(t),
    ensures
        s.eats() && t.score % 5 == 0 ==> t.level == 1 + t.score / 5,
        t.level == level_for(t.score),
        t.level >= s.level,
{
    lemma_step_keeps_wf(s, t);
}

/// A higher level never has a longer tick interval: the interval is strictly
/// shorter, or it has reached the floor. It is never below the floor.
pub proof fn lemma_interval_shrinks(lower: nat, higher: nat)
    requires
        1 <= lower < higher,
    ensures
        interval_for(higher) < interval_for(lower) || interval_for(higher) == MIN_TICK_MS,
        interval_for(higher) <= interval_for(lower),
        interval_for(lower) >= MIN_TICK_MS,
{
}

/// Once a session is over, steps change nothing, however many they are.
pub proof fn lemma_over_is_final(trace: Seq<GameView>)
    requires
        trace.len() > 0,
        trace[0].over,
        is_run(trace),
    ensures
        forall|i: int| 0 <= i < trace.len() ==> #[trigger] trace[i] == trace[0],
    decreases trace.len(),
{
    if trace.len() > 1 {
        let shorter = trace.drop_last();
        assert forall|i: int| 0 <= i < shorter.len() - 1 implies (#[trigger] shorter[i]).steps_to(
            shorter[i + 1],
        ) by {
            assert(shorter[i] == trace[i] && shorter[i + 1] == trace[i + 1]);
        }
        lemma_over_is_final(shorter);
        let s = trace[trace.len() - 2];
        assert(s == shorter[trace.len() - 2]);
        assert(s.steps_to(trace.last()));
        assert forall|i: int| 0 <= i < trace.len() implies #[trigger] trace[i] == trace[0] by {
            if i < trace.len() - 1 {
                assert(trace[i] == shorter[i]);
            }
        }
    }
}

} // verus!
