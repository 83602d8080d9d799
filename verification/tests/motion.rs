use digital_rain::animation::{Animation, AnimationAction, FRAME_PAUSE_MS};
use digital_rain::direction::Direction;
use digital_rain::geometry::{cell_position, step_count, Position, TerminalBounds};
use digital_rain::motion::{erase_cells, paint_cells, Cell};

fn screen() -> TerminalBounds {
    TerminalBounds { width: 80, height: 24 }
}

fn at(col: u16, row: u16) -> Position {
    Position { col, row }
}

fn cell(col: u16, row: u16, glyph: char) -> Cell {
    Cell { position: at(col, row), glyph }
}

#[test]
fn step_count_follows_the_direction() {
    let origin = at(10, 7);
    assert_eq!(step_count(Direction::Down, origin, screen()), 17);
    assert_eq!(step_count(Direction::Up, origin, screen()), 8);
    assert_eq!(step_count(Direction::Left, origin, screen()), 11);
    assert_eq!(step_count(Direction::Right, origin, screen()), 70);
}

#[test]
fn step_count_is_zero_at_or_past_the_far_edge() {
    assert_eq!(step_count(Direction::Down, at(3, 24), screen()), 0);
    assert_eq!(step_count(Direction::Down, at(3, 500), screen()), 0);
    assert_eq!(step_count(Direction::Right, at(80, 3), screen()), 0);
    assert_eq!(step_count(Direction::Right, at(65535, 3), screen()), 0);
}

#[test]
fn step_count_against_the_axis_is_one_more_than_the_coordinate() {
    assert_eq!(step_count(Direction::Up, at(0, 0), screen()), 1);
    assert_eq!(step_count(Direction::Left, at(0, 0), screen()), 1);
    assert_eq!(step_count(Direction::Up, at(0, 65535), screen()), 65536);
    assert_eq!(step_count(Direction::Left, at(65535, 0), screen()), 65536);
}

#[test]
fn down_from_the_top_row_takes_one_step_for_each_row() {
    let origin = at(5, 0);
    assert_eq!(step_count(Direction::Down, origin, screen()), 24);
    assert_eq!(paint_cells("a", Direction::Down, origin, screen(), 0), vec![cell(5, 0, 'a')]);
    assert_eq!(paint_cells("a", Direction::Down, origin, screen(), 23), vec![cell(5, 23, 'a')]);
    assert_eq!(paint_cells("a", Direction::Down, origin, screen(), 24), vec![]);

    let mut animation = Animation::new("a", Direction::Down, origin, screen());
    let mut painted_rows = Vec::new();
    loop {
        match animation.next_action() {
            AnimationAction::Paint(cells) => {
                assert_eq!(cells.len(), 1);
                assert_eq!(cells[0].position.col, 5);
                painted_rows.push(cells[0].position.row);
            }
            AnimationAction::Pause(_) | AnimationAction::Erase(_) => {}
            AnimationAction::Finished => break,
        }
    }
    assert_eq!(painted_rows, (0..24).collect::<Vec<u16>>());
}

#[test]
fn up_from_below_the_screen_starts_out_of_sight() {
    let origin = at(5, 24);
    assert_eq!(step_count(Direction::Up, origin, screen()), 25);
    assert_eq!(paint_cells("a", Direction::Up, origin, screen(), 0), vec![]);
    assert_eq!(cell_position(Direction::Up, origin, screen(), 0, 0), None);
    assert_eq!(paint_cells("a", Direction::Up, origin, screen(), 1), vec![cell(5, 23, 'a')]);
    assert_eq!(paint_cells("a", Direction::Up, origin, screen(), 24), vec![cell(5, 0, 'a')]);
}

#[test]
fn characters_follow_the_head_along_the_axis() {
    let down = paint_cells("abc", Direction::Down, at(5, 0), screen(), 2);
    assert_eq!(down, vec![cell(5, 2, 'a'), cell(5, 3, 'b'), cell(5, 4, 'c')]);
    let right = paint_cells("abc", Direction::Right, at(0, 9), screen(), 10);
    assert_eq!(right, vec![cell(10, 9, 'a'), cell(11, 9, 'b'), cell(12, 9, 'c')]);
    let up = paint_cells("abc", Direction::Up, at(5, 23), screen(), 1);
    assert_eq!(up, vec![cell(5, 22, 'a'), cell(5, 21, 'b'), cell(5, 20, 'c')]);
    let left = paint_cells("abc", Direction::Left, at(79, 9), screen(), 0);
    assert_eq!(left, vec![cell(79, 9, 'a'), cell(78, 9, 'b'), cell(77, 9, 'c')]);
}

#[test]
fn motion_against_the_axis_stops_at_zero() {
    let up = paint_cells("abc", Direction::Up, at(5, 3), screen(), 2);
    assert_eq!(up, vec![cell(5, 1, 'a'), cell(5, 0, 'b'), cell(5, 0, 'c')]);
    let left = paint_cells("ab", Direction::Left, at(1, 4), screen(), 9);
    assert_eq!(left, vec![cell(0, 4, 'a'), cell(0, 4, 'b')]);
    assert_eq!(
        cell_position(Direction::Up, at(5, 3), screen(), 65536, usize::MAX),
        Some(at(5, 0))
    );
    assert_eq!(
        cell_position(Direction::Left, at(5, 3), screen(), 7, 1_000_000),
        Some(at(0, 3))
    );
}

#[test]
fn characters_past_the_edge_are_left_out() {
    let down = paint_cells("abcd", Direction::Down, at(5, 0), screen(), 22);
    assert_eq!(down, vec![cell(5, 22, 'a'), cell(5, 23, 'b')]);
    let right = paint_cells("abcd", Direction::Right, at(0, 0), screen(), 79);
    assert_eq!(right, vec![cell(79, 0, 'a')]);
}

#[test]
fn a_coordinate_on_the_bound_is_not_visible() {
    let bounds = screen();
    assert!(at(79, 23).is_visible(bounds));
    assert!(at(0, 0).is_visible(bounds));
    assert!(!at(80, 23).is_visible(bounds));
    assert!(!at(79, 24).is_visible(bounds));
    assert!(!at(80, 24).is_visible(bounds));
    assert!(!at(0, 0).is_visible(TerminalBounds { width: 0, height: 0 }));

    assert_eq!(cell_position(Direction::Down, at(79, 0), bounds, 23, 0), Some(at(79, 23)));
    assert_eq!(cell_position(Direction::Down, at(79, 0), bounds, 23, 1), None);
    assert_eq!(cell_position(Direction::Down, at(80, 0), bounds, 0, 0), None);
    assert_eq!(cell_position(Direction::Right, at(0, 24), bounds, 0, 0), None);
    assert_eq!(cell_position(Direction::Right, at(0, 23), bounds, 79, 0), Some(at(79, 23)));
    assert_eq!(cell_position(Direction::Right, at(0, 23), bounds, 80, 0), None);
    assert_eq!(cell_position(Direction::Left, at(80, 5), bounds, 0, 0), None);
    assert_eq!(cell_position(Direction::Left, at(80, 5), bounds, 0, 1), Some(at(79, 5)));
    assert_eq!(cell_position(Direction::Down, at(3, 0), bounds, 65536, usize::MAX), None);
}

#[test]
fn an_origin_off_the_screen_across_the_axis_paints_nothing() {
    for step in 0..30 {
        assert_eq!(paint_cells("abc", Direction::Down, at(80, 0), screen(), step), vec![]);
        assert_eq!(paint_cells("abc", Direction::Up, at(200, 24), screen(), step), vec![]);
        assert_eq!(erase_cells("abc", Direction::Right, at(0, 24), screen(), step), vec![]);
    }
}

#[test]
fn erasing_blanks_the_cells_that_were_painted() {
    let directions = [Direction::Down, Direction::Up, Direction::Left, Direction::Right];
    let origins = [at(0, 0), at(5, 0), at(5, 24), at(80, 7), at(0, 7), at(79, 23), at(40, 12)];
    for direction in directions {
        for origin in origins {
            for step in 0..90 {
                let painted = paint_cells("rain drops", direction, origin, screen(), step);
                let erased = erase_cells("rain drops", direction, origin, screen(), step);
                let painted_at: Vec<Position> = painted.iter().map(|c| c.position).collect();
                let erased_at: Vec<Position> = erased.iter().map(|c| c.position).collect();
                assert_eq!(painted_at, erased_at);
                assert!(erased.iter().all(|c| c.glyph == ' '));
                assert!(painted.iter().all(|c| c.position.is_visible(screen())));
            }
        }
    }
}

#[test]
fn erase_cells_of_one_frame() {
    let erased = erase_cells("abc", Direction::Down, at(5, 0), screen(), 22);
    assert_eq!(erased, vec![cell(5, 22, ' '), cell(5, 23, ' ')]);
}

#[test]
fn a_character_of_several_bytes_takes_one_cell() {
    let painted = paint_cells("日本語", Direction::Right, at(0, 0), screen(), 0);
    assert_eq!(painted, vec![cell(0, 0, '日'), cell(1, 0, '本'), cell(2, 0, '語')]);
    let erased = erase_cells("日本語", Direction::Right, at(0, 0), screen(), 78);
    assert_eq!(erased, vec![cell(78, 0, ' '), cell(79, 0, ' ')]);
}

#[test]
fn an_empty_string_writes_nothing() {
    let origin = at(5, 0);
    let mut animation = Animation::new("", Direction::Down, origin, screen());
    let mut frames = 0;
    loop {
        match animation.next_action() {
            AnimationAction::Paint(cells) | AnimationAction::Erase(cells) => {
                assert!(cells.is_empty());
                frames += 1;
            }
            AnimationAction::Pause(_) => {}
            AnimationAction::Finished => break,
        }
    }
    assert_eq!(frames, 48);
}

#[test]
fn an_animation_paints_pauses_and_erases_each_step() {
    let bounds = TerminalBounds { width: 1, height: 2 };
    let mut animation = Animation::new("xy", Direction::Down, at(0, 0), bounds);
    assert!(!animation.is_finished());
    let expected = vec![
        AnimationAction::Paint(vec![cell(0, 0, 'x'), cell(0, 1, 'y')]),
        AnimationAction::Pause(100),
        AnimationAction::Erase(vec![cell(0, 0, ' '), cell(0, 1, ' ')]),
        AnimationAction::Paint(vec![cell(0, 1, 'x')]),
        AnimationAction::Pause(100),
        AnimationAction::Erase(vec![cell(0, 1, ' ')]),
        AnimationAction::Finished,
        AnimationAction::Finished,
    ];
    for action in expected {
        assert_eq!(animation.next_action(), action);
    }
    assert!(animation.is_finished());
    assert_eq!(FRAME_PAUSE_MS, 100);
}

#[test]
fn an_animation_from_past_the_far_edge_is_finished_at_once() {
    let mut animation = Animation::new("abc", Direction::Down, at(5, 24), screen());
    assert!(animation.is_finished());
    assert_eq!(animation.next_action(), AnimationAction::Finished);
    let mut animation = Animation::new("abc", Direction::Right, at(90, 3), screen());
    assert_eq!(animation.next_action(), AnimationAction::Finished);
}

#[test]
fn an_animation_takes_three_actions_for_each_step() {
    let cases = [
        (Direction::Down, at(5, 0)),
        (Direction::Up, at(5, 24)),
        (Direction::Left, at(80, 3)),
        (Direction::Right, at(0, 3)),
        (Direction::Right, at(77, 3)),
    ];
    for (direction, origin) in cases {
        let steps = step_count(direction, origin, screen());
        let mut animation = Animation::new("abcde", direction, origin, screen());
        let mut actions: u32 = 0;
        while animation.next_action() != AnimationAction::Finished {
            actions += 1;
        }
        assert_eq!(actions, 3 * steps);
    }
}
