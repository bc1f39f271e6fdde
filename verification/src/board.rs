//! What each cell of the board shows.

use crate::game::Game;
use crate::geometry::Point;
use crate::model::GameView;
use vstd::prelude::*;

verus! {

/// What a cell of the board shows.
#[derive(Clone, Copy, PartialEq, Eq, Structural, Debug)]
pub enum Cell {
    Empty,
    Apple,
    Head,
    Body,
}

impl GameView {
    /// What the given cell shows. The apple is drawn over the snake, and the
    /// head is told apart from the rest of the snake.
    pub open spec fn shows(self, cell: Point) -> Cell {
        if self.apple == cell {
            Cell::Apple
        } else if self.snake.len() > 0 && self.snake[0] == cell {
            Cell::Head
        } else if self.snake.contains(cell) {
            Cell::Body
        } else {
            Cell::Empty
        }
    }
}

impl Game {
    /// What the cell in the given column and row shows.
    pub fn cell_at(&self, x: u16, y: u16) -> (cell: Cell)
        ensures
            cell == self@.shows(Point { x, y }),
    {
        let apple = self.apple();
        let snake = self.snake();
        if apple.x == x && apple.y == y {
            Cell::Apple
        } else if snake.len() > 0 && snake[0].x == x && snake[0].y == y {
            Cell::Head
        } else if self.occupied(Point { x, y }) {
            Cell::Body
        } else {
            Cell::Empty
        }
    }

    /// The whole board, row by row from the top, each row from the left.
    pub fn grid(&self) -> (rows: Vec<Vec<Cell>>)
        ensures
            rows@.len() == self@.height,
            forall|y: int| 0 <= y < rows@.len() ==> (#[trigger] rows@[y])@.len() == self@.width,
            forall|x: u16, y: u16|
                y < self@.height && x < self@.width ==> (#[trigger] rows@[y as int]@[x as int])
                    == self@.shows(Point { x, y }),
    {
        let width = self.width();
        let height = self.height();
        let mut rows: Vec<Vec<Cell>> = Vec::new();
        let mut y: u16 = 0;
        while y < height
            invariant
                y <= height,
                width == self@.width,
                height == self@.height,
                rows@.len() == y,
                forall|j: int| 0 <= j < y ==> (#[trigger] rows@[j])@.len() == width,
                forall|i: u16, j: u16|
                    j < y && i < width ==> (#[trigger] rows@[j as int]@[i as int]) == self@.shows(
                        Point { x: i, y: j },
                    ),
            decreases height - y,
        {
            let mut row: Vec<Cell> = Vec::new();
            let mut x: u16 = 0;
            while x < width
                invariant
                    x <= width,
                    y < height,
                    row@.len() == x,
                    forall|i: u16|
                        i < x ==> (#[trigger] row@[i as int]) == self@.shows(Point { x: i, y }),
                decreases width - x,
            {
                row.push(self.cell_at(x, y));
                x += 1;
            }
            rows.push(row);
            y += 1;
        }
        rows
    }
}

} // verus!
