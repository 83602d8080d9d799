use digital_rain::alphabet::Alphabet;
use digital_rain::direction::Direction;
use digital_rain::geometry::{Position, TerminalBounds};
use digital_rain::spawn::{
    edge_origin, spawn_batch, spawnable, xy_by_direction, FallingString, BATCH_SIZE, MAX_LENGTH,
    MIN_LENGTH,
};

fn screen() -> TerminalBounds {
    TerminalBounds { width: 80, height: 24 }
}

#[test]
fn the_near_edge_depends_on_the_direction() {
    assert_eq!(edge_origin(Direction::Down, screen(), 7), Position { col: 7, row: 0 });
    assert_eq!(edge_origin(Direction::Up, screen(), 7), Position { col: 7, row: 24 });
    assert_eq!(edge_origin(Direction::Right, screen(), 7), Position { col: 0, row: 7 });
    assert_eq!(edge_origin(Direction::Left, screen(), 7), Position { col: 80, row: 7 });
}

#[test]
fn origins_lie_on_the_near_edge_within_the_bounds() {
    let mut columns = Vec::new();
    for _ in 0..500 {
        let down = xy_by_direction(Direction::Down, screen());
        assert_eq!(down.row, 0);
        assert!(down.col < 80);
        columns.push(down.col);
        let up = xy_by_direction(Direction::Up, screen());
        assert_eq!(up.row, 24);
        assert!(up.col < 80);
        let right = xy_by_direction(Direction::Right, screen());
        assert_eq!(right.col, 0);
        assert!(right.row < 24);
        let left = xy_by_direction(Direction::Left, screen());
        assert_eq!(left.col, 80);
        assert!(left.row < 24);
    }
    columns.sort();
    columns.dedup();
    assert!(columns.len() > 1);
}

#[test]
fn a_single_cell_edge_leaves_no_choice() {
    let narrow = TerminalBounds { width: 1, height: 1 };
    assert_eq!(xy_by_direction(Direction::Down, narrow), Position { col: 0, row: 0 });
    assert_eq!(xy_by_direction(Direction::Up, narrow), Position { col: 0, row: 1 });
    assert_eq!(xy_by_direction(Direction::Right, narrow), Position { col: 0, row: 0 });
    assert_eq!(xy_by_direction(Direction::Left, narrow), Position { col: 1, row: 0 });
}

#[test]
fn an_edge_without_cells_cannot_spawn() {
    let flat = TerminalBounds { width: 80, height: 0 };
    let thin = TerminalBounds { width: 0, height: 24 };
    assert!(spawnable(Direction::Down, flat));
    assert!(spawnable(Direction::Up, flat));
    assert!(!spawnable(Direction::Left, flat));
    assert!(!spawnable(Direction::Right, flat));
    assert!(!spawnable(Direction::Down, thin));
    assert!(!spawnable(Direction::Up, thin));
    assert!(spawnable(Direction::Left, thin));
    assert!(spawnable(Direction::Right, thin));
}

#[test]
fn spawned_strings_have_five_to_nineteen_characters() {
    assert_eq!(MIN_LENGTH, 5);
    assert_eq!(MAX_LENGTH, 20);
    let mut lengths = Vec::new();
    for _ in 0..500 {
        let string = FallingString::spawn(Direction::Left, Alphabet::Greek, screen());
        let length = string.text.chars().count();
        assert!((5..20).contains(&length));
        assert!(string.text.chars().all(|glyph| Alphabet::Greek.contains(glyph)));
        assert_eq!(string.direction, Direction::Left);
        assert_eq!(string.origin.col, 80);
        assert!(string.origin.row < 24);
        lengths.push(length);
    }
    lengths.sort();
    lengths.dedup();
    assert!(lengths.len() > 1);
}

#[test]
fn a_batch_holds_four_strings() {
    assert_eq!(BATCH_SIZE, 4);
    let batch = spawn_batch(Direction::Down, Alphabet::Japanese, screen());
    assert_eq!(batch.len(), 4);
    for string in &batch {
        assert_eq!(string.direction, Direction::Down);
        assert_eq!(string.origin.row, 0);
        assert!(string.origin.col < 80);
        assert!((5..20).contains(&string.text.chars().count()));
    }
}
