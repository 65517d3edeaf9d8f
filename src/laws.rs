//! What holds of text output in general, stated over the model that the
//! writer's contracts use.
use crate::cell::{ColorCode, ScreenChar};
use crate::writer::{blank, glyph, run, scroll, step};
use vstd::prelude::*;

verus! {

/// A grid of 25 rows of 80 cells.
pub open spec fn well_shaped(rows: Seq<Seq<ScreenChar>>) -> bool {
    &&& rows.len() == 25
    &&& forall|r: int| 0 <= r < 25 ==> (#[trigger] rows[r]).len() == 80
}

/// How many of the bytes are newlines.
pub open spec fn newlines(bytes: Seq<u8>) -> nat
    decreases bytes.len(),
{
    if bytes.len() == 0 {
        0
    } else {
        newlines(bytes.drop_last()) + if bytes.last() == 10 {
            1nat
        } else {
            0nat
        }
    }
}

/// How many line breaks writing `bytes` performs: one per newline, and one per
/// byte that finds the bottom row full.
pub open spec fn line_breaks(
    rows: Seq<Seq<ScreenChar>>,
    column: nat,
    color: ColorCode,
    bytes: Seq<u8>,
) -> nat
    decreases bytes.len(),
{
    if bytes.len() == 0 {
        0
    } else {
        let prev = run(rows, column, color, bytes.drop_last());
        line_breaks(rows, column, color, bytes.drop_last()) + if bytes.last() == 10 || prev.1 >= 80 {
            1nat
        } else {
            0nat
        }
    }
}

/// Any text keeps the grid at 25 rows of 80 cells and the cursor within the row.
pub proof fn lemma_run_stays_in_grid(
    rows: Seq<Seq<ScreenChar>>,
    column: nat,
    color: ColorCode,
    bytes: Seq<u8>,
)
    requires
        well_shaped(rows),
        column <= 80,
    ensures
        well_shaped(run(rows, column, color, bytes).0),
        run(rows, column, color, bytes).1 <= 80,
    decreases bytes.len(),
{
    if bytes.len() > 0 {
        lemma_run_stays_in_grid(rows, column, color, bytes.drop_last());
        let prev = run(rows, column, color, bytes.drop_last());
        let next = run(rows, column, color, bytes);
        assert(well_shaped(scroll(prev.0, color)));
        assert(well_shaped(next.0));
    }
}

/// A printable ASCII byte lands on screen as itself, just left of the cursor
/// on the bottom row.
pub proof fn lemma_printable_shown(rows: Seq<Seq<ScreenChar>>, column: nat, color: ColorCode, b: u8)
    requires
        well_shaped(rows),
        column <= 80,
        0x20 <= b <= 0x7e,
    ensures
        ({
            let res = run(rows, column, color, seq![b]);
            &&& 1 <= res.1 <= 80
            &&& res.0[24][res.1 - 1] == ScreenChar { ascii_character: b, color_code: color }
        }),
{
    assert(seq![b].drop_last() =~= Seq::<u8>::empty());
    assert(run(rows, column, color, seq![b].drop_last()) == (rows, column));
    assert(seq![b].last() == b);
    assert(scroll(rows, color)[24].len() == 80);
}

/// Any byte other than printable ASCII and the newline lands on screen as the
/// block glyph 0xFE, and so never as itself unless it is 0xFE.
pub proof fn lemma_unprintable_substituted(
    rows: Seq<Seq<ScreenChar>>,
    column: nat,
    color: ColorCode,
    b: u8,
)
    requires
        well_shaped(rows),
        column <= 80,
        !(0x20 <= b <= 0x7e),
        b != 10,
    ensures
        ({
            let res = run(rows, column, color, seq![b]);
            &&& 1 <= res.1 <= 80
            &&& res.0[24][res.1 - 1] == ScreenChar { ascii_character: 0xfe, color_code: color }
            &&& b != 0xfe ==> res.0[24][res.1 - 1].ascii_character != b
        }),
{
    assert(seq![b].drop_last() =~= Seq::<u8>::empty());
    assert(run(rows, column, color, seq![b].drop_last()) == (rows, column));
    assert(seq![b].last() == b);
    assert(scroll(rows, color)[24].len() == 80);
}

/// Text without newlines that fits in what is left of the bottom row lands
/// there byte by byte from the cursor on, moves the cursor by its length and
/// leaves every other cell as it was.
pub proof fn lemma_short_text(rows: Seq<Seq<ScreenChar>>, column: nat, color: ColorCode, bytes: Seq<u8>)
    requires
        well_shaped(rows),
        column + bytes.len() <= 80,
        forall|i: int| 0 <= i < bytes.len() ==> bytes[i] != 10,
    ensures
        ({
            let res = run(rows, column, color, bytes);
            &&& res.1 == column + bytes.len()
            &&& well_shaped(res.0)
            &&& forall|r: int| 0 <= r < 24 ==> #[trigger] res.0[r] == rows[r]
            &&& forall|c: int|
                column <= c < res.1 ==> #[trigger] res.0[24][c] == ScreenChar {
                    ascii_character: glyph(bytes[c - column]),
                    color_code: color,
                }
            &&& forall|c: int|
                0 <= c < 80 && (c < column || res.1 <= c) ==> #[trigger] res.0[24][c] == rows[24][c]
        }),
    decreases bytes.len(),
{
    if bytes.len() > 0 {
        let prefix = bytes.drop_last();
        lemma_short_text(rows, column, color, prefix);
    }
}

/// Exactly 81 printable bytes written from the start of a line scroll once:
/// the first 80 end up on the row above the bottom, the 81st at the start of
/// the bottom row, and the cursor just after it.
pub proof fn lemma_one_wrap(rows: Seq<Seq<ScreenChar>>, color: ColorCode, bytes: Seq<u8>)
    requires
        well_shaped(rows),
        bytes.len() == 81,
        forall|i: int| 0 <= i < bytes.len() ==> 0x20 <= #[trigger] bytes[i] <= 0x7e,
    ensures
        ({
            let res = run(rows, 0, color, bytes);
            &&& res.1 == 1
            &&& line_breaks(rows, 0, color, bytes) == 1
            &&& res.0[24][0] == ScreenChar { ascii_character: bytes[80], color_code: color }
            &&& forall|c: int| 1 <= c < 80 ==> #[trigger] res.0[24][c] == blank(color)
            &&& forall|c: int|
                0 <= c < 80 ==> #[trigger] res.0[23][c] == ScreenChar {
                    ascii_character: bytes[c],
                    color_code: color,
                }
            &&& forall|r: int| 0 <= r < 23 ==> #[trigger] res.0[r] == rows[r + 1]
        }),
{
    let first = bytes.drop_last();
    lemma_short_text(rows, 0, color, first);
    lemma_no_breaks_in_short_text(rows, 0, color, first);
    let mid = run(rows, 0, color, first);
    assert forall|c: int| 0 <= c < 80 implies #[trigger] mid.0[24][c] == ScreenChar {
        ascii_character: bytes[c],
        color_code: color,
    } by {
        assert(first[c] == bytes[c]);
    }
}

/// Text without newlines that fits in what is left of the bottom row breaks
/// no line.
pub proof fn lemma_no_breaks_in_short_text(
    rows: Seq<Seq<ScreenChar>>,
    column: nat,
    color: ColorCode,
    bytes: Seq<u8>,
)
    requires
        well_shaped(rows),
        column + bytes.len() <= 80,
        forall|i: int| 0 <= i < bytes.len() ==> bytes[i] != 10,
    ensures
        line_breaks(rows, column, color, bytes) == 0,
    decreases bytes.len(),
{
    if bytes.len() > 0 {
        let prefix = bytes.drop_last();
        lemma_short_text(rows, column, color, prefix);
        lemma_no_breaks_in_short_text(rows, column, color, prefix);
    }
}

/// The cursor is at the start of the bottom row right after every newline.
pub proof fn lemma_newline_resets_column(
    rows: Seq<Seq<ScreenChar>>,
    column: nat,
    color: ColorCode,
    bytes: Seq<u8>,
)
    ensures
        forall|i: int|
            0 <= i < bytes.len() && bytes[i] == 10 ==> (#[trigger] run(
                rows,
                column,
                color,
                bytes.subrange(0, i + 1),
            )).1 == 0,
{
    assert forall|i: int| 0 <= i < bytes.len() && bytes[i] == 10 implies (#[trigger] run(
        rows,
        column,
        color,
        bytes.subrange(0, i + 1),
    )).1 == 0 by {
        assert(bytes.subrange(0, i + 1).drop_last() =~= bytes.subrange(0, i));
    }
}

/// Text in which no line overflows the bottom row (every byte other than a
/// newline finds the cursor short of the row's end) breaks exactly one line
/// per newline.
pub proof fn lemma_breaks_count_newlines(
    rows: Seq<Seq<ScreenChar>>,
    column: nat,
    color: ColorCode,
    bytes: Seq<u8>,
)
    requires
        forall|i: int|
            0 <= i < bytes.len() && bytes[i] != 10 ==> (#[trigger] run(
                rows,
                column,
                color,
                bytes.subrange(0, i),
            )).1 < 80,
    ensures
        line_breaks(rows, column, color, bytes) == newlines(bytes),
    decreases bytes.len(),
{
    if bytes.len() > 0 {
        let prefix = bytes.drop_last();
        assert forall|i: int|
            0 <= i < prefix.len() && prefix[i] != 10 implies (#[trigger] run(
            rows,
            column,
            color,
            prefix.subrange(0, i),
        )).1 < 80 by {
            assert(prefix.subrange(0, i) =~= bytes.subrange(0, i));
            assert(bytes[i] == prefix[i]);
        }
        lemma_breaks_count_newlines(rows, column, color, prefix);
        let last = bytes.len() - 1;
        assert(bytes.subrange(0, last) =~= prefix);
        if bytes[last] != 10 {
            assert(run(rows, column, color, bytes.subrange(0, last)).1 < 80);
        }
    }
}

} // verus!
