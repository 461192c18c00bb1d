use vstd::prelude::*;
use crate::color::{Color, sgr};

verus! {

/// What one pixel shows: the colour escape and a full block where the scene
/// was hit, a blank where it was missed.
pub open spec fn glyph(cell: Option<Color>) -> Seq<char> {
    match cell {
        Some(c) => sgr(c.code_spec()) + seq!['\u{2588}'],
        None => seq![' '],
    }
}

/// The glyphs of the first `n` pixels of row `j`, left to right. Pixel `i` of
/// row `j` is `cells[j * width + i]`; row 0 is the bottom of the picture.
pub open spec fn row_text(cells: Seq<Option<Color>>, width: nat, j: nat, n: nat) -> Seq<char>
    decreases n,
{
    if n == 0 {
        Seq::empty()
    } else {
        row_text(cells, width, j, (n - 1) as nat) + glyph(cells[(j * width + n - 1) as int])
    }
}

/// The first `k` lines of the picture, top line first, each ended by a line
/// break. Line `l` shows row `height - 1 - l`.
pub open spec fn lines_text(cells: Seq<Option<Color>>, width: nat, height: nat, k: nat) -> Seq<
    char,
>
    decreases k,
{
    if k == 0 {
        Seq::empty()
    } else {
        lines_text(cells, width, height, (k - 1) as nat) + row_text(
            cells,
            width,
            (height - k) as nat,
            width,
        ) + seq!['\n']
    }
}

/// A whole frame: every line of the picture, then the escape that resets the
/// colour.
pub open spec fn frame_text(cells: Seq<Option<Color>>, width: nat, height: nat) -> Seq<char> {
    lines_text(cells, width, height, height) + sgr(Color::Reset.code_spec())
}

/// Lays out the pixels of a `width` by `height` picture as terminal text.
/// `cells[j * width + i]` is what the ray through column `i` of row `j`
/// struck, with row 0 at the bottom; the text runs from the top row down.
pub fn render_frame(width: usize, height: usize, cells: &Vec<Option<Color>>) -> (r: String)
    requires
        cells@.len() == width * height,
    ensures
        r@ == frame_text(cells@, width as nat, height as nat),
{
    let total: usize = cells.len();
    let mut out = String::new();
    let mut k: usize = 0;
    while k < height
        invariant
            k <= height,
            cells@.len() == width * height,
            total == cells@.len(),
            out@ == lines_text(cells@, width as nat, height as nat, k as nat),
        decreases height - k,
    {
        let j: usize = height - 1 - k;
        let mut i: usize = 0;
        while i < width
            invariant
                i <= width,
                j < height,
                j == height - 1 - k,
                cells@.len() == width * height,
                total == cells@.len(),
                out@ == lines_text(cells@, width as nat, height as nat, k as nat) + row_text(
                    cells@,
                    width as nat,
                    j as nat,
                    i as nat,
                ),
            decreases width - i,
        {
            proof {
                assert(j * width + i < width * height) by (nonlinear_arith)
                    requires
                        j < height,
                        i < width,
                ;
            }
            let idx: usize = j * width + i;
            let ghost before = out@;
            match cells[idx] {
                Some(c) => {
                    out.append(c.escape());
                    out.append("\u{2588}");
                    proof {
                        reveal_strlit("\u{2588}");
                    }
                },
                None => {
                    out.append(" ");
                    proof {
                        reveal_strlit(" ");
                    }
                },
            }
            assert(out@ =~= before + glyph(cells@[idx as int]));
            i = i + 1;
        }
        out.append("\n");
        proof {
            reveal_strlit("\n");
        }
        assert(out@ =~= lines_text(cells@, width as nat, height as nat, (k + 1) as nat));
        k = k + 1;
    }
    out.append(Color::Reset.escape());
    out
}

} // verus!
