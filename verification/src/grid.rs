//! The level grid as a text file: one line per row of cells, one character per cell.
//! `0` is grass, `T` a tree, and `S`, `X` and `E` are path; any other character is
//! grass. Spaces are ignored. The last line sets the width of the grid, the number of
//! lines its height, and the character at column `x` of line `y` sets cell
//! `y * width + x`.
use crate::assets::ImageData;
use crate::enums_types::CellType;
use vstd::prelude::*;

verus! {

/// The text with its spaces taken out.
pub open spec fn without_spaces(text: Seq<u8>) -> Seq<u8>
    decreases text.len(),
{
    if text.len() == 0 {
        Seq::empty()
    } else if text.last() == 32u8 {
        without_spaces(text.drop_last())
    } else {
        without_spaces(text.drop_last()).push(text.last())
    }
}

/// The first byte of a character in UTF-8 (any byte but a continuation byte).
pub open spec fn is_char_start(b: u8) -> bool {
    b < 0x80 || b >= 0xC0
}

/// Where the line holding position `p` begins: just after the last line feed before
/// `p`, or at the start.
pub open spec fn line_start(s: Seq<u8>, p: int) -> int
    decreases p,
{
    if p <= 0 {
        0
    } else if s[p - 1] == 10u8 {
        p
    } else {
        line_start(s, p - 1)
    }
}

/// The number of line feeds before position `p`: the row of the line holding `p`.
pub open spec fn row_of(s: Seq<u8>, p: int) -> int
    decreases p,
{
    if p <= 0 {
        0
    } else {
        row_of(s, p - 1) + if s[p - 1] == 10u8 {
            1int
        } else {
            0int
        }
    }
}

/// Position `p` holds a character of a line, not its line ending (a line feed, or a
/// carriage return just before a line feed).
pub open spec fn is_cell_char(s: Seq<u8>, p: int) -> bool {
    &&& 0 <= p < s.len()
    &&& is_char_start(s[p])
    &&& s[p] != 10u8
    &&& !(s[p] == 13u8 && p + 1 < s.len() && s[p + 1] == 10u8)
}

/// The cell that the character at position `p` sets, in a grid `width` cells wide.
pub open spec fn cell_target(s: Seq<u8>, p: int, width: int) -> int {
    row_of(s, p) * width + (p - line_start(s, p))
}

/// The kind of cell a character stands for, by its first byte.
pub open spec fn spec_cell_of(b: u8) -> CellType {
    if b == 48u8 {
        CellType::Grass
    } else if b == 83u8 || b == 88u8 || b == 69u8 {
        CellType::Path
    } else if b == 84u8 {
        CellType::Tree
    } else {
        CellType::Grass
    }
}

/// The number of lines: every line feed ends one, and text after the last line feed
/// is one more.
pub open spec fn line_count(s: Seq<u8>) -> int {
    row_of(s, s.len() as int) + if s.len() > 0 && s.last() != 10u8 {
        1int
    } else {
        0int
    }
}

/// The length in bytes of the last line, without its line ending.
pub open spec fn last_line_len(s: Seq<u8>) -> int {
    if s.len() > 0 && s.last() == 10u8 {
        let st = line_start(s, s.len() - 1);
        let e = s.len() - 1;
        if e > st && s[e - 1] == 13u8 {
            e - 1 - st
        } else {
            e - st
        }
    } else {
        s.len() - line_start(s, s.len() as int)
    }
}

/// The kind of cell `k` once the characters before position `upto` have been placed:
/// the last character placed on it decides, and a cell that none reaches is grass.
pub open spec fn cell_after(s: Seq<u8>, width: int, k: int, upto: int) -> CellType
    decreases upto,
{
    if upto <= 0 {
        CellType::Grass
    } else if is_cell_char(s, upto - 1) && cell_target(s, upto - 1, width) == k {
        spec_cell_of(s[upto - 1])
    } else {
        cell_after(s, width, k, upto - 1)
    }
}

/// The text can be laid out: it has a line, the grid fits in memory, and every
/// character falls on a cell of the grid.
pub open spec fn grid_text_fits(text: Seq<u8>) -> bool {
    let s = without_spaces(text);
    let w = last_line_len(s);
    let h = line_count(s);
    &&& s.len() > 0
    &&& w * h <= usize::MAX
    &&& forall|p: int| #[trigger] is_cell_char(s, p) ==> cell_target(s, p, w) < w * h
}

/// The kinds of the cells of a grid, row after row.
#[derive(Debug, Clone)]
pub struct GridLayout {
    pub width: usize,
    pub height: usize,
    pub cells: Vec<CellType>,
}

/// The kind of cell a character stands for, given its first byte.
pub fn cell_of(b: u8) -> (c: CellType)
    ensures
        c == spec_cell_of(b),
{
    if b == 48u8 {
        CellType::Grass
    } else if b == 83u8 || b == 88u8 || b == 69u8 {
        CellType::Path
    } else if b == 84u8 {
        CellType::Tree
    } else {
        CellType::Grass
    }
}

fn strip_spaces(text: &[u8]) -> (s: Vec<u8>)
    ensures
        s@ == without_spaces(text@),
{
    let mut out: Vec<u8> = Vec::new();
    let mut i: usize = 0;
    while i < text.len()
        invariant
            i <= text.len(),
            out@ == without_spaces(text@.take(i as int)),
        decreases text.len() - i,
    {
        assert(text@.take(i as int + 1).drop_last() =~= text@.take(i as int));
        if text[i] != 32u8 {
            out.push(text[i]);
        }
        i = i + 1;
    }
    assert(text@.take(text.len() as int) =~= text@);
    out
}

/// The size of the grid that a space-free text describes: the length of its last line
/// and its number of lines.
fn grid_size(s: &Vec<u8>) -> (r: (usize, usize))
    requires
        s.len() > 0,
    ensures
        r.0 == last_line_len(s@),
        r.1 == line_count(s@),
{
    let n = s.len();
    let mut i: usize = 0;
    let mut ls: usize = 0;
    let mut prev_ls: usize = 0;
    let mut rows: usize = 0;
    while i < n
        invariant
            n == s.len(),
            i <= n,
            ls == line_start(s@, i as int),
            ls <= i,
            i > 0 ==> prev_ls == line_start(s@, i - 1) && prev_ls <= i - 1,
            rows == row_of(s@, i as int),
            rows + (if i > 0 && s@[i - 1] != 10u8 {
                1int
            } else {
                0int
            }) <= i,
        decreases n - i,
    {
        prev_ls = ls;
        if s[i] == 10u8 {
            ls = i + 1;
            rows = rows + 1;
        }
        i = i + 1;
    }
    let last = s[n - 1];
    if last == 10u8 {
        let e = n - 1;
        let w = if e > prev_ls && s[e - 1] == 13u8 {
            e - 1 - prev_ls
        } else {
            e - prev_ls
        };
        (w, rows)
    } else {
        (n - ls, rows + 1)
    }
}

/// Lays out the cells of a grid from the text of a grid file; None when the text
/// cannot be laid out (it has no line, the grid would not fit in memory, or a
/// character falls past the last cell).
pub fn parse_grid_data(text: &[u8]) -> (r: Option<GridLayout>)
    ensures
        r is None <==> !grid_text_fits(text@),
        r matches Some(g) ==> {
            &&& g.width == last_line_len(without_spaces(text@))
            &&& g.height == line_count(without_spaces(text@))
            &&& g.cells.len() == g.width * g.height
            &&& forall|k: int|
                0 <= k < g.cells.len() ==> #[trigger] g.cells@[k] == cell_after(
                    without_spaces(text@),
                    g.width as int,
                    k,
                    without_spaces(text@).len() as int,
                )
        },
{
    let s = strip_spaces(text);
    if s.len() == 0 {
        return None;
    }
    let (w, h) = grid_size(&s);
    let total = match w.checked_mul(h) {
        Some(t) => t,
        None => return None,
    };
    let mut cells: Vec<CellType> = Vec::new();
    let mut k: usize = 0;
    while k < total
        invariant
            k <= total,
            cells.len() == k,
            forall|j: int| 0 <= j < k ==> #[trigger] cells@[j] == CellType::Grass,
        decreases total - k,
    {
        cells.push(CellType::Grass);
        k = k + 1;
    }
    let n = s.len();
    let mut p: usize = 0;
    let mut ls: usize = 0;
    let mut y: usize = 0;
    while p < n
        invariant
            n == s.len(),
            n > 0,
            s@ == without_spaces(text@),
            w == last_line_len(s@),
            h == line_count(s@),
            total == w * h,
            p <= n,
            ls == line_start(s@, p as int),
            ls <= p,
            y == row_of(s@, p as int),
            y <= p,
            cells.len() == total,
            forall|q: int| 0 <= q < p && #[trigger] is_cell_char(s@, q) ==> cell_target(s@, q, w as int) < w * h,
            forall|j: int|
                0 <= j < total ==> #[trigger] cells@[j] == cell_after(s@, w as int, j, p as int),
        decreases n - p,
    {
        let b = s[p];
        let ends_line = b == 10u8 || (b == 13u8 && p + 1 < n && s[p + 1] == 10u8);
        if (b < 0x80u8 || b >= 0xC0u8) && !ends_line {
            assert(is_cell_char(s@, p as int));
            let row_cells = match y.checked_mul(w) {
                Some(v) => v,
                None => {
                    assert(y * w <= y * w + (p - ls)) by (nonlinear_arith)
                        requires
                            p >= ls,
                    ;
                    return None;
                },
            };
            let idx = match row_cells.checked_add(p - ls) {
                Some(v) => v,
                None => return None,
            };
            if idx >= total {
                return None;
            }
            let ghost before = cells@;
            cells.set(idx, cell_of(b));
            assert forall|j: int|
                0 <= j < total implies #[trigger] cells@[j] == cell_after(
                s@,
                w as int,
                j,
                p as int + 1,
            ) by {
                if j != idx as int {
                    assert(cells@[j] == before[j]);
                }
            }
        } else {
            assert(!is_cell_char(s@, p as int));
        }
        if b == 10u8 {
            ls = p + 1;
            y = y + 1;
        }
        p = p + 1;
    }
    Some(GridLayout { width: w, height: h, cells })
}

/// Byte `j` of the grid's ground texture: pixel `j / 4` lies in column `(j / 4) % 10`
/// of a 10 by 10 image; the left half is dark grey, the right half light grey, and
/// every pixel has alpha 90.
pub open spec fn half_split_byte(j: int) -> u8 {
    if j % 4 == 3 {
        90u8
    } else if (j / 4) % 10 < 5 {
        87u8
    } else {
        91u8
    }
}

/// The grid's ground texture: 10 by 10 pixels, dark on the left half and light on the
/// right half.
pub fn generate_texture() -> (img: ImageData)
    ensures
        img.width == 10,
        img.height == 10,
        img.rgba@.len() == 400,
        forall|j: int| 0 <= j < 400 ==> #[trigger] img.rgba@[j] == half_split_byte(j),
{
    let mut rgba: Vec<u8> = Vec::new();
    let mut j: usize = 0;
    while j < 400
        invariant
            j <= 400,
            rgba@.len() == j,
            forall|k: int| 0 <= k < j ==> #[trigger] rgba@[k] == half_split_byte(k),
        decreases 400 - j,
    {
        let byte: u8 = if j % 4 == 3 {
            90
        } else if (j / 4) % 10 < 5 {
            87
        } else {
            91
        };
        rgba.push(byte);
        j = j + 1;
    }
    ImageData { width: 10, height: 10, rgba }
}

/// The grid's height map: 10 by 10 opaque pixels, all at the middle grey level 128.
pub fn generate_height_map() -> (img: ImageData)
    ensures
        img.width == 10,
        img.height == 10,
        img.rgba@.len() == 400,
        forall|j: int| 0 <= j < 400 ==> #[trigger] img.rgba@[j] == (if j % 4 == 3 {
            255u8
        } else {
            128u8
        }),
{
    let mut rgba: Vec<u8> = Vec::new();
    let mut j: usize = 0;
    while j < 400
        invariant
            j <= 400,
            rgba@.len() == j,
            forall|k: int| 0 <= k < j ==> #[trigger] rgba@[k] == (if k % 4 == 3 {
                255u8
            } else {
                128u8
            }),
        decreases 400 - j,
    {
        let byte: u8 = if j % 4 == 3 {
            255
        } else {
            128
        };
        rgba.push(byte);
        j = j + 1;
    }
    ImageData { width: 10, height: 10, rgba }
}

} // verus!
