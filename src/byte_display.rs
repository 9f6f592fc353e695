//! The data region: which bytes each display row shows, formatted.

use vstd::prelude::*;
use vstd::arithmetic::div_mod::{lemma_fundamental_div_mod, lemma_mod_pos_bound};
use vstd::slice::slice_subrange;

use crate::line::{formatted_width, padded_hex_row, Line};
use crate::screen::{row_count, Screen};

verus! {

/// Bytes that fit on a line of `line_length` characters, three characters per
/// byte but the last, which needs no separator.
pub open spec fn bytes_per_line(line_length: nat) -> nat {
    if line_length > 0 {
        (line_length + 1) / 3
    } else {
        0
    }
}

/// The `r`-th row of the bytes from the offset on.
pub open spec fn row_bytes(screen: Screen, r: nat) -> Seq<u8> {
    let v = screen.visible_bytes();
    let b = screen.bytes_per_row as nat;
    let end = if (r + 1) * b < v.len() {
        (r + 1) * b
    } else {
        v.len()
    };
    v.subrange((r * b) as int, end as int)
}

/// The part of a row that the horizontal scroll leaves on screen.
pub open spec fn shown_bytes(screen: Screen, row: Seq<u8>) -> Seq<u8> {
    let limit = screen.scroll_x + bytes_per_line(screen.frame.width as nat);
    let end = if limit < row.len() {
        limit
    } else {
        row.len() as int
    };
    let start = if screen.scroll_x < end {
        screen.scroll_x as int
    } else {
        end
    };
    row.subrange(start, end)
}

/// The text of display row `i`, or `None` where no data is left and the line is cleared.
pub open spec fn display_row(screen: Screen, i: nat) -> Option<Seq<char>> {
    let r = screen.scroll_y + i;
    if r < row_count(screen.visible_bytes().len(), screen.bytes_per_row as nat) {
        Some(
            padded_hex_row(
                shown_bytes(screen, row_bytes(screen, r as nat)),
                screen.frame.width as nat,
            ),
        )
    } else {
        None
    }
}

/// Calculate number of bytes which can be displayed per line
pub fn max_bytes(line_length: u16) -> (n: usize)
    ensures
        n == bytes_per_line(line_length as nat),
{
    if line_length > 0 {
        (line_length as usize + 1) / 3
    } else {
        0
    }
}

proof fn lemma_row_start_in_data(r: nat, b: nat, len: nat)
    requires
        b > 0,
        r < row_count(len, b),
    ensures
        r * b < len,
        (r + 1) * b == r * b + b,
{
    lemma_fundamental_div_mod(len as int, b as int);
    lemma_mod_pos_bound(len as int, b as int);
    let q = len / b;
    if r < q {
        assert(r * b < len) by (nonlinear_arith)
            requires
                r < q,
                len == b * q + len % b,
                len % b >= 0,
                b > 0,
        ;
    } else {
        assert(r * b < len) by (nonlinear_arith)
            requires
                r == q,
                len == b * q + len % b,
                len % b > 0,
        ;
    }
    assert((r + 1) * b == r * b + b) by (nonlinear_arith);
}

proof fn lemma_line_fits(k: nat, w: nat)
    requires
        k <= bytes_per_line(w),
    ensures
        formatted_width(k) <= w,
{
    if w > 0 {
        lemma_fundamental_div_mod(w + 1 as int, 3);
        lemma_mod_pos_bound(w + 1 as int, 3);
    }
}

/// The formatted rows of the data region, top to bottom; `None` marks a row
/// below the end of the data, which is to be cleared.
pub fn display_rows(screen: &Screen) -> (rows: Vec<Option<String>>)
    requires
        screen.wf(),
    ensures
        rows@.len() == screen.data_height(),
        forall|i: int|
            0 <= i < rows@.len() ==> match #[trigger] rows@[i] {
                Some(t) => display_row(*screen, i as nat) == Some(t@),
                None => display_row(*screen, i as nat) is None,
            },
{
    let height = screen.data_frame_height() as usize;
    let width = screen.data_frame_width();
    let per_line = max_bytes(width);
    let bytes_per_row = screen.bytes_per_row;
    let len = screen.data.len();
    let first = if screen.offset <= len {
        screen.offset
    } else {
        len
    };
    let visible = slice_subrange(screen.data, first, len);
    assert(visible@ == screen.visible_bytes());
    let visible_len = visible.len();
    proof {
        if visible_len % bytes_per_row != 0 {
            lemma_fundamental_div_mod(visible_len as int, bytes_per_row as int);
            lemma_mod_pos_bound(visible_len as int, bytes_per_row as int);
            assert(visible_len / bytes_per_row < usize::MAX) by (nonlinear_arith)
                requires
                    visible_len == bytes_per_row * (visible_len / bytes_per_row) + visible_len
                        % bytes_per_row,
                    0 < visible_len % bytes_per_row < bytes_per_row,
                    visible_len <= usize::MAX,
            ;
        }
    }
    let total_rows = visible_len / bytes_per_row + if visible_len % bytes_per_row == 0 {
        0
    } else {
        1
    };

    let mut line = Line::new(width as usize);
    let mut rows: Vec<Option<String>> = Vec::new();
    for i in 0..height
        invariant
            screen.wf(),
            height == screen.data_height(),
            width == screen.frame.width,
            per_line == bytes_per_line(width as nat),
            bytes_per_row == screen.bytes_per_row,
            visible@ == screen.visible_bytes(),
            visible_len == visible@.len(),
            total_rows == row_count(visible_len as nat, bytes_per_row as nat),
            line.capacity() == width,
            rows@.len() == i,
            forall|j: int|
                0 <= j < i ==> match #[trigger] rows@[j] {
                    Some(t) => display_row(*screen, j as nat) == Some(t@),
                    None => display_row(*screen, j as nat) is None,
                },
    {
        if screen.scroll_y < total_rows && i < total_rows - screen.scroll_y {
            let r = screen.scroll_y + i;
            proof {
                lemma_row_start_in_data(r as nat, bytes_per_row as nat, visible_len as nat);
            }
            let row_start = r * bytes_per_row;
            let row_end = if visible_len - row_start < bytes_per_row {
                visible_len
            } else {
                row_start + bytes_per_row
            };
            let row = slice_subrange(visible, row_start, row_end);
            assert(row@ == row_bytes(*screen, r as nat));
            let row_len = row.len();
            let end = if screen.scroll_x >= row_len {
                row_len
            } else if row_len - screen.scroll_x < per_line {
                row_len
            } else {
                screen.scroll_x + per_line
            };
            let start = if screen.scroll_x < end {
                screen.scroll_x
            } else {
                end
            };
            let view = slice_subrange(row, start, end);
            assert(view@ == shown_bytes(*screen, row@));
            proof {
                lemma_line_fits(view@.len(), width as nat);
            }
            let text = String::from_str(line.format(view));
            rows.push(Some(text));
        } else {
            rows.push(None);
        }
    }
    rows
}

} // verus!
