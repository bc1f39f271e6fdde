//! Grid cells and the four directions of travel.

use vstd::prelude::*;

verus! {

/// A cell of the grid, counted from the top left corner.
#[derive(Clone, Copy, PartialEq, Eq, Structural, Debug)]
pub struct Point {
    pub x: u16,
    pub y: u16,
}

/// A direction of travel. `Up` is towards row zero, `Left` towards column zero.
#[derive(Clone, Copy, PartialEq, Eq, Structural, Debug)]
pub enum Direction {
    Up,
    Down,
    Left,
    Right,
}

impl Direction {
    /// The direction that points the other way.
    pub open spec fn opposite(self) -> Direction {
        match self {
            Direction::Up => Direction::Down,
            Direction::Down => Direction::Up,
            Direction::Left => Direction::Right,
            Direction::Right => Direction::Left,
        }
    }

    /// Change of column made by one move in this direction.
    pub open spec fn dx(self) -> int {
        match self {
            Direction::Left => -1,
            Direction::Right => 1,
            _ => 0,
        }
    }

    /// Change of row made by one move in this direction.
    pub open spec fn dy(self) -> int {
        match self {
            Direction::Up => -1,
            Direction::Down => 1,
            _ => 0,
        }
    }

    /// Whether `other` is the exact reverse of `self`.
    pub fn is_opposite(self, other: Direction) -> (b: bool)
        ensures
            b == (other == self.opposite()),
    {
        match (self, other) {
            (Direction::Up, Direction::Down) => true,
            (Direction::Down, Direction::Up) => true,
            (Direction::Left, Direction::Right) => true,
            (Direction::Right, Direction::Left) => true,
            _ => false,
        }
    }
}

impl Point {
    /// Column and row reached by one move from this cell, as unbounded integers:
    /// a move off the low edge gives -1, never a clamped zero.
    pub open spec fn shifted(self, dir: Direction) -> (int, int) {
        (self.x + dir.dx(), self.y + dir.dy())
    }

    /// Whether the cell lies on a board of the given size.
    pub open spec fn within(self, width: nat, height: nat) -> bool {
        self.x < width && self.y < height
    }

    /// Whether two cells share an edge: they differ by one in exactly one coordinate.
    pub open spec fn adjacent(self, other: Point) -> bool {
        let dx = self.x - other.x;
        let dy = self.y - other.y;
        (dx == 0 && (dy == 1 || dy == -1)) || (dy == 0 && (dx == 1 || dx == -1))
    }

    /// Whether two cells share an edge.
    pub fn is_adjacent(self, other: Point) -> (b: bool)
        ensures
            b == self.adjacent(other),
    {
        if self.x == other.x {
            (self.y < other.y && other.y - self.y == 1) || (other.y < self.y && self.y - other.y
                == 1)
        } else if self.y == other.y {
            (self.x < other.x && other.x - self.x == 1) || (other.x < self.x && self.x - other.x
                == 1)
        } else {
            false
        }
    }

    /// The neighbouring cell in the given direction, or `None` where the move
    /// would leave the range of the coordinates.
    pub fn neighbour(self, dir: Direction) -> (r: Option<Point>)
        ensures
            match r {
                Some(p) => (p.x as int, p.y as int) == self.shifted(dir),
                None => {
                    let t = self.shifted(dir);
                    t.0 < 0 || t.0 > u16::MAX || t.1 < 0 || t.1 > u16::MAX
                },
            },
    {
        match dir {
            Direction::Up => if self.y == 0 {
                None
            } else {
                Some(Point { x: self.x, y: self.y - 1 })
            },
            Direction::Down => if self.y == u16::MAX {
                None
            } else {
                Some(Point { x: self.x, y: self.y + 1 })
            },
            Direction::Left => if self.x == 0 {
                None
            } else {
                Some(Point { x: self.x - 1, y: self.y })
            },
            Direction::Right => if self.x == u16::MAX {
                None
            } else {
                Some(Point { x: self.x + 1, y: self.y })
            },
        }
    }
}

} // verus!
