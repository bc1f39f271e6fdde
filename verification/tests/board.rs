use snake_game::{Cell, Direction, Game, Point};

fn game_with(cells: &[(u16, u16)], apple: (u16, u16)) -> Game {
    let snake: Vec<Point> = cells.iter().map(|&(x, y)| Point { x, y }).collect();
    match Game::from_parts(10, 5, snake, Direction::Right, Point { x: apple.0, y: apple.1 }) {
        Some(game) => game,
        None => panic!("the parts make no valid session"),
    }
}

#[test]
fn cell_at_tells_apple_head_body_and_empty() {
    let game = game_with(&[(5, 2), (4, 2), (3, 2)], (7, 1));
    assert_eq!(game.cell_at(7, 1), Cell::Apple);
    assert_eq!(game.cell_at(5, 2), Cell::Head);
    assert_eq!(game.cell_at(4, 2), Cell::Body);
    assert_eq!(game.cell_at(3, 2), Cell::Body);
    assert_eq!(game.cell_at(6, 2), Cell::Empty);
    assert_eq!(game.cell_at(0, 0), Cell::Empty);
    assert_eq!(game.cell_at(9, 4), Cell::Empty);
}

#[test]
fn cell_at_is_empty_off_the_board() {
    let game = game_with(&[(5, 2), (4, 2), (3, 2)], (7, 1));
    assert_eq!(game.cell_at(10, 2), Cell::Empty);
    assert_eq!(game.cell_at(5, 5), Cell::Empty);
    assert_eq!(game.cell_at(65535, 65535), Cell::Empty);
}

#[test]
fn cell_at_shows_the_apple_over_the_snake() {
    let game = game_with(&[(2, 1), (1, 1), (0, 1)], (1, 1));
    assert_eq!(game.cell_at(1, 1), Cell::Apple);
    assert_eq!(game.cell_at(2, 1), Cell::Head);
    assert_eq!(game.cell_at(0, 1), Cell::Body);
    let game = game_with(&[(1, 1), (1, 2), (1, 3)], (1, 1));
    assert_eq!(game.cell_at(1, 1), Cell::Apple);
    assert_eq!(game.cell_at(1, 2), Cell::Body);
}

#[test]
fn grid_has_one_row_for_each_row_of_the_board() {
    let game = game_with(&[(5, 2), (4, 2), (3, 2)], (7, 1));
    let rows = game.grid();
    assert_eq!(rows.len(), 5);
    for row in rows.iter() {
        assert_eq!(row.len(), 10);
    }
    let e = Cell::Empty;
    assert_eq!(rows[0], vec![e; 10]);
    assert_eq!(rows[1], vec![e, e, e, e, e, e, e, Cell::Apple, e, e]);
    assert_eq!(rows[2], vec![e, e, e, Cell::Body, Cell::Body, Cell::Head, e, e, e, e]);
    assert_eq!(rows[3], vec![e; 10]);
    assert_eq!(rows[4], vec![e; 10]);
}

#[test]
fn grid_agrees_with_cell_at() {
    let game = Game::new(23, 11);
    let rows = game.grid();
    assert_eq!(rows.len(), 11);
    let mut apples = 0;
    let mut heads = 0;
    let mut bodies = 0;
    for y in 0..11u16 {
        assert_eq!(rows[y as usize].len(), 23);
        for x in 0..23u16 {
            let cell = rows[y as usize][x as usize];
            assert_eq!(cell, game.cell_at(x, y));
            match cell {
                Cell::Apple => apples += 1,
                Cell::Head => heads += 1,
                Cell::Body => bodies += 1,
                Cell::Empty => {},
            }
        }
    }
    assert_eq!((apples, heads, bodies), (1, 1, 2));
}
