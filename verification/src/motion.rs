//! One frame of a moving string: which cells are painted at a step, and
//! which are blanked again before the next.

use vstd::prelude::*;
use crate::direction::Direction;
use crate::geometry::{cell_position, offset_col, offset_row, visible_at, Position, TerminalBounds};
use crate::text::chars_of;

verus! {

/// A character to write at a cell.
#[derive(Clone, Copy, Debug, PartialEq, Eq, Structural)]
pub struct Cell {
    pub position: Position,
    pub glyph: char,
}

/// Whether the character with index `index` can be seen at step `step`.
pub open spec fn shows(
    direction: Direction,
    origin: Position,
    bounds: TerminalBounds,
    step: nat,
    index: nat,
) -> bool {
    visible_at(
        offset_col(direction, origin, step + index),
        offset_row(direction, origin, step + index),
        bounds,
    )
}

/// The cell of the character with index `index` at step `step`.
pub open spec fn spot(direction: Direction, origin: Position, step: nat, index: nat) -> Position {
    Position {
        col: offset_col(direction, origin, step + index) as u16,
        row: offset_row(direction, origin, step + index) as u16,
    }
}

/// The write that puts the character with index `index` on the screen.
pub open spec fn written(
    glyphs: Seq<char>,
    direction: Direction,
    origin: Position,
    step: nat,
    index: int,
) -> Cell {
    Cell { position: spot(direction, origin, step, index as nat), glyph: glyphs[index] }
}

/// The writes for the first `count` characters of `glyphs` at step `step`:
/// one for each character that can be seen, in the order of the string.
pub open spec fn frame_upto(
    glyphs: Seq<char>,
    direction: Direction,
    origin: Position,
    bounds: TerminalBounds,
    step: nat,
    count: nat,
) -> Seq<Cell>
    decreases count,
{
    if count == 0 {
        Seq::empty()
    } else {
        let index = (count - 1) as nat;
        let before = frame_upto(glyphs, direction, origin, bounds, step, index);
        if shows(direction, origin, bounds, step, index) {
            before.push(written(glyphs, direction, origin, step, index as int))
        } else {
            before
        }
    }
}

/// The writes that paint `text` at step `step`.
pub open spec fn painted_frame(
    text: Seq<char>,
    direction: Direction,
    origin: Position,
    bounds: TerminalBounds,
    step: nat,
) -> Seq<Cell> {
    frame_upto(text, direction, origin, bounds, step, text.len())
}

/// A string of `len` spaces.
pub open spec fn blanks(len: nat) -> Seq<char> {
    Seq::new(len, |i: int| ' ')
}

/// The writes that blank a string of `len` characters at step `step`.
pub open spec fn erased_frame(
    len: nat,
    direction: Direction,
    origin: Position,
    bounds: TerminalBounds,
    step: nat,
) -> Seq<Cell> {
    frame_upto(blanks(len), direction, origin, bounds, step, len)
}

/// The cells that a sequence of writes touches, in order.
pub open spec fn positions_of(cells: Seq<Cell>) -> Seq<Position> {
    cells.map_values(|c: Cell| c.position)
}

/// The writes for the characters of `glyphs` at step `step`.
pub(crate) fn frame_of(
    glyphs: &Vec<char>,
    direction: Direction,
    origin: Position,
    bounds: TerminalBounds,
    step: u32,
) -> (cells: Vec<Cell>)
    ensures
        cells@ == painted_frame(glyphs@, direction, origin, bounds, step as nat),
{
    let mut cells: Vec<Cell> = Vec::new();
    let mut index: usize = 0;
    while index < glyphs.len()
        invariant
            index <= glyphs.len(),
            cells@ == frame_upto(glyphs@, direction, origin, bounds, step as nat, index as nat),
        decreases glyphs.len() - index,
    {
        if let Some(position) = cell_position(direction, origin, bounds, step, index) {
            cells.push(Cell { position, glyph: glyphs[index] });
        }
        index += 1;
    }
    cells
}

/// The writes that blank `len` characters at step `step`.
pub(crate) fn blank_frame_of(
    len: usize,
    direction: Direction,
    origin: Position,
    bounds: TerminalBounds,
    step: u32,
) -> (cells: Vec<Cell>)
    ensures
        cells@ == erased_frame(len as nat, direction, origin, bounds, step as nat),
{
    let mut cells: Vec<Cell> = Vec::new();
    let mut index: usize = 0;
    while index < len
        invariant
            index <= len,
            cells@ == frame_upto(
                blanks(len as nat),
                direction,
                origin,
                bounds,
                step as nat,
                index as nat,
            ),
        decreases len - index,
    {
        if let Some(position) = cell_position(direction, origin, bounds, step, index) {
            cells.push(Cell { position, glyph: ' ' });
        }
        index += 1;
    }
    cells
}

/// The cursor moves and characters that paint `text` at step `step`, in the
/// order of the string. Characters that lie off the screen are left out.
pub fn paint_cells(
    text: &str,
    direction: Direction,
    origin: Position,
    bounds: TerminalBounds,
    step: u32,
) -> (cells: Vec<Cell>)
    ensures
        cells@ == painted_frame(text@, direction, origin, bounds, step as nat),
{
    let glyphs = chars_of(text);
    frame_of(&glyphs, direction, origin, bounds, step)
}

/// The cursor moves and spaces that take `text` off the screen again after
/// it was painted at step `step`.
pub fn erase_cells(
    text: &str,
    direction: Direction,
    origin: Position,
    bounds: TerminalBounds,
    step: u32,
) -> (cells: Vec<Cell>)
    ensures
        cells@ == erased_frame(text@.len(), direction, origin, bounds, step as nat),
{
    let len = text.unicode_len();
    blank_frame_of(len, direction, origin, bounds, step)
}

/// Which cells a frame touches depends on the length of the string alone,
/// not on its characters.
proof fn lemma_positions_ignore_glyphs(
    first: Seq<char>,
    second: Seq<char>,
    direction: Direction,
    origin: Position,
    bounds: TerminalBounds,
    step: nat,
    count: nat,
)
    ensures
        positions_of(frame_upto(first, direction, origin, bounds, step, count)) == positions_of(
            frame_upto(second, direction, origin, bounds, step, count),
        ),
    decreases count,
{
    if count > 0 {
        let last = (count - 1) as nat;
        lemma_positions_ignore_glyphs(first, second, direction, origin, bounds, step, last);
        let shorter = positions_of(frame_upto(first, direction, origin, bounds, step, last));
        let from_first = positions_of(frame_upto(first, direction, origin, bounds, step, count));
        let from_second = positions_of(frame_upto(second, direction, origin, bounds, step, count));
        if shows(direction, origin, bounds, step, last) {
            let added = spot(direction, origin, step, last);
            assert(from_first =~= shorter.push(added));
            assert(from_second =~= shorter.push(added));
        }
    } else {
        assert(positions_of(frame_upto(first, direction, origin, bounds, step, count))
            =~= positions_of(frame_upto(second, direction, origin, bounds, step, count)));
    }
}

/// Erasing undoes painting: at every step the cells that are blanked are
/// the cells that were painted, in the same order, and each of them is
/// overwritten with a space.
pub proof fn lemma_erase_covers_paint(
    text: Seq<char>,
    direction: Direction,
    origin: Position,
    bounds: TerminalBounds,
    step: nat,
)
    ensures
        positions_of(erased_frame(text.len(), direction, origin, bounds, step)) == positions_of(
            painted_frame(text, direction, origin, bounds, step),
        ),
        forall|k: int|
            0 <= k < erased_frame(text.len(), direction, origin, bounds, step).len()
                ==> (#[trigger] erased_frame(text.len(), direction, origin, bounds, step)[k]).glyph
                == ' ',
{
    lemma_positions_ignore_glyphs(
        blanks(text.len()),
        text,
        direction,
        origin,
        bounds,
        step,
        text.len(),
    );
    lemma_frame_members(blanks(text.len()), direction, origin, bounds, step, text.len());
}

/// Whether `cell` is the write of one of the first `count` characters, and
/// of one that can be seen.
pub open spec fn written_for_seen(
    cell: Cell,
    glyphs: Seq<char>,
    direction: Direction,
    origin: Position,
    bounds: TerminalBounds,
    step: nat,
    count: nat,
) -> bool {
    exists|i: int|
        0 <= i < count && shows(direction, origin, bounds, step, i as nat) && cell == #[trigger] written(
            glyphs,
            direction,
            origin,
            step,
            i,
        )
}

/// What a frame holds: each of its writes belongs to a character that can
/// be seen, and each character that can be seen has its write.
proof fn lemma_frame_members(
    glyphs: Seq<char>,
    direction: Direction,
    origin: Position,
    bounds: TerminalBounds,
    step: nat,
    count: nat,
)
    requires
        count <= glyphs.len(),
    ensures
        forall|k: int|
            0 <= k < frame_upto(glyphs, direction, origin, bounds, step, count).len()
                ==> written_for_seen(
                #[trigger] frame_upto(glyphs, direction, origin, bounds, step, count)[k],
                glyphs,
                direction,
                origin,
                bounds,
                step,
                count,
            ),
        forall|i: int|
            0 <= i < count && shows(direction, origin, bounds, step, i as nat) ==> frame_upto(
                glyphs,
                direction,
                origin,
                bounds,
                step,
                count,
            ).contains(#[trigger] written(glyphs, direction, origin, step, i)),
    decreases count,
{
    if count > 0 {
        let last = (count - 1) as nat;
        let before = frame_upto(glyphs, direction, origin, bounds, step, last);
        let whole = frame_upto(glyphs, direction, origin, bounds, step, count);
        lemma_frame_members(glyphs, direction, origin, bounds, step, last);
        assert forall|k: int| 0 <= k < whole.len() implies written_for_seen(
            #[trigger] whole[k],
            glyphs,
            direction,
            origin,
            bounds,
            step,
            count,
        ) by {
            if k < before.len() {
                assert(written_for_seen(before[k], glyphs, direction, origin, bounds, step, last));
                let i = choose|i: int|
                    0 <= i < last && shows(direction, origin, bounds, step, i as nat) && before[k]
                        == written(glyphs, direction, origin, step, i);
                assert(whole[k] == written(glyphs, direction, origin, step, i));
            } else {
                assert(whole[k] == written(glyphs, direction, origin, step, last as int));
            }
        }
        assert forall|i: int|
            0 <= i < count && shows(direction, origin, bounds, step, i as nat) implies whole.contains(
            #[trigger] written(glyphs, direction, origin, step, i),
        ) by {
            if i < last {
                let k = choose|k: int|
                    0 <= k < before.len() && before[k] == written(glyphs, direction, origin, step, i);
                assert(whole[k] == written(glyphs, direction, origin, step, i));
            } else {
                assert(whole[whole.len() - 1] == written(glyphs, direction, origin, step, i));
            }
        }
    }
}

/// The visibility boundary. A frame writes to no cell that has a coordinate
/// at or beyond the bound, and it writes every character whose cell has both
/// coordinates inside the bounds, and nothing else.
pub proof fn lemma_frame_is_what_can_be_seen(
    text: Seq<char>,
    direction: Direction,
    origin: Position,
    bounds: TerminalBounds,
    step: nat,
)
    ensures
        forall|k: int|
            0 <= k < painted_frame(text, direction, origin, bounds, step).len() ==> {
                let cell = #[trigger] painted_frame(text, direction, origin, bounds, step)[k];
                cell.position.col < bounds.width && cell.position.row < bounds.height
            },
        forall|c: Cell|
            #[trigger] painted_frame(text, direction, origin, bounds, step).contains(c)
                <==> written_for_seen(c, text, direction, origin, bounds, step, text.len()),
{
    let frame = painted_frame(text, direction, origin, bounds, step);
    lemma_frame_members(text, direction, origin, bounds, step, text.len());
    assert forall|c: Cell| #[trigger] frame.contains(c) implies written_for_seen(
        c,
        text,
        direction,
        origin,
        bounds,
        step,
        text.len(),
    ) by {
        let k = choose|k: int| 0 <= k < frame.len() && frame[k] == c;
        assert(written_for_seen(frame[k], text, direction, origin, bounds, step, text.len()));
    }
    assert forall|k: int| 0 <= k < frame.len() implies {
        let cell = #[trigger] frame[k];
        cell.position.col < bounds.width && cell.position.row < bounds.height
    } by {
        assert(written_for_seen(frame[k], text, direction, origin, bounds, step, text.len()));
    }
}

/// A string without characters is never drawn: each of its frames, painted
/// or blanked, is empty.
pub proof fn lemma_empty_text_writes_nothing(
    direction: Direction,
    origin: Position,
    bounds: TerminalBounds,
    step: nat,
)
    ensures
        painted_frame(Seq::<char>::empty(), direction, origin, bounds, step) == Seq::<Cell>::empty(),
        erased_frame(0, direction, origin, bounds, step) == Seq::<Cell>::empty(),
{
}

} // verus!
