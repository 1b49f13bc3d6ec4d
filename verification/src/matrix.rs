//! The frame buffer model: a fixed 34x9 (rows x columns) grid of brightness
//! bytes, with the row/column transpose used by the column-addressed wire
//! format and the overlay compositor that places widget bitmaps on a frame.

use crate::widget::UpdatableWidget;
use crate::widget::widget_fits;
use vstd::prelude::*;

verus! {

/// The full display surface: 34 rows of 9 brightness cells, row-major.
pub type Matrix = [[u8; 9]; 34];

/// A rectangular grid: `rows` rows, each of exactly `cols` cells.
pub open spec fn is_grid<T>(m: Seq<Seq<T>>, rows: nat, cols: nat) -> bool {
    m.len() == rows && forall|i: int| 0 <= i < rows ==> (#[trigger] m[i]).len() == cols
}

/// The grid with rows and columns exchanged: cell (j, i) of the result is
/// cell (i, j) of `m`.
pub open spec fn transpose_of<T>(m: Seq<Seq<T>>, rows: nat, cols: nat) -> Seq<Seq<T>> {
    Seq::new(cols, |j: int| Seq::new(rows, |i: int| m[i][j]))
}

/// Transposing is its own inverse: exchanging rows and columns twice gives
/// back the original grid.
pub proof fn lemma_transpose_involutive<T>(m: Seq<Seq<T>>, rows: nat, cols: nat)
    requires
        is_grid(m, rows, cols),
    ensures
        transpose_of(transpose_of(m, rows, cols), cols, rows) == m,
{
    let tt = transpose_of(transpose_of(m, rows, cols), cols, rows);
    assert forall|i: int| 0 <= i < rows implies tt[i] =~= m[i] by {
        assert(forall|j: int| 0 <= j < cols ==> tt[i][j] == m[i][j]);
    }
    assert(tt =~~= m);
}

/// Bit `k` of a packed byte string: bit `k % 8` (least significant bit
/// first) of byte `k / 8`.
pub open spec fn bit_of(bytes: Seq<u8>, k: int) -> bool {
    (bytes[k / 8] >> ((k % 8) as u8)) & 1 == 1
}

/// Cell `k` of a row-major scan of a 34x9 boolean grid: row `k / 9`,
/// column `k % 9`.
pub open spec fn grid_bit(g: Seq<Seq<bool>>, k: int) -> bool {
    g[k / 9][k % 9]
}

proof fn lemma_zero_byte_bits(p: u8)
    ensures
        (0u8 >> p) & 1 != 1,
{
    assert((0u8 >> p) & 1 != 1) by (bit_vector);
}

proof fn lemma_or_bit_set(b: u8, o: u8)
    requires
        o < 8,
    ensures
        ((b | (1u8 << o)) >> o) & 1 == 1,
{
    assert(o < 8 ==> ((b | (1u8 << o)) >> o) & 1 == 1) by (bit_vector);
}

proof fn lemma_or_bit_keep(b: u8, o: u8, p: u8)
    requires
        o < 8,
        p < 8,
        o != p,
    ensures
        ((b | (1u8 << o)) >> p) & 1 == (b >> p) & 1,
{
    assert(o < 8 && p < 8 && o != p ==> ((b | (1u8 << o)) >> p) & 1 == (b >> p) & 1)
        by (bit_vector);
}

/// Pack a 34x9 boolean grid into 39 bytes, one bit per cell: the row-major
/// scan fills each byte least-significant-bit first, and the six bits left
/// over in the last byte stay zero.
pub fn encode(arr: [[bool; 9]; 34]) -> (out: [u8; 39])
    ensures
        forall|k: int| 0 <= k < 306 ==> bit_of(out@, k) == grid_bit(arr.deep_view(), k),
        forall|k: int| 306 <= k < 312 ==> !bit_of(out@, k),
{
    let mut out: [u8; 39] = [0; 39];
    proof {
        assert forall|k: int| 0 <= k < 312 implies !bit_of(out@, k) by {
            lemma_zero_byte_bits((k % 8) as u8);
        }
    }
    for i in 0..34
        invariant
            forall|k: int| 0 <= k < (i as int) * 9 ==> bit_of(out@, k) == grid_bit(arr.deep_view(), k),
            forall|k: int| (i as int) * 9 <= k < 312 ==> !bit_of(out@, k),
    {
        for j in 0..9
            invariant
                i < 34,
                forall|k: int|
                    0 <= k < (i as int) * 9 + (j as int) ==> bit_of(out@, k) == grid_bit(arr.deep_view(), k),
                forall|k: int| (i as int) * 9 + (j as int) <= k < 312 ==> !bit_of(out@, k),
        {
            let pos = i * 9 + j;
            let idx = pos / 8;
            let off: u8 = (pos % 8) as u8;
            let ghost prev = out@;
            if arr[i][j] {
                out[idx] = out[idx] | (1u8 << off);
                proof {
                    assert forall|k: int| 0 <= k < 312 && k != pos implies bit_of(out@, k)
                        == bit_of(prev, k) by {
                        if k / 8 == idx {
                            lemma_or_bit_keep(prev[idx as int], off, (k % 8) as u8);
                        }
                    }
                    lemma_or_bit_set(prev[idx as int], off);
                    assert(bit_of(out@, pos as int));
                }
            }
            proof {
                assert(grid_bit(arr.deep_view(), pos as int) == arr@[i as int]@[j as int]);
                assert forall|k: int| pos + 1 <= k < 312 implies !bit_of(out@, k) by {
                    assert(bit_of(out@, k) == bit_of(prev, k));
                    assert(!bit_of(prev, k));
                }
                assert forall|k: int| 0 <= k < pos + 1 implies bit_of(out@, k) == grid_bit(
                    arr.deep_view(),
                    k,
                ) by {
                    if k < pos {
                        assert(bit_of(out@, k) == bit_of(prev, k));
                    }
                }
            }
        }
    }
    out
}

/// Switch the frame's rows and columns, yielding the column-major layout
/// the device is addressed in.
pub fn transpose(arr: Matrix) -> (out: [[u8; 34]; 9])
    ensures
        out.deep_view() == transpose_of(arr.deep_view(), 34, 9),
{
    let mut out: [[u8; 34]; 9] = [[0; 34]; 9];
    for i in 0..34
        invariant
            forall|i0: int, j0: int|
                0 <= i0 < i && 0 <= j0 < 9 ==> out@[j0]@[i0] == arr@[i0]@[j0],
    {
        for j in 0..9
            invariant
                i < 34,
                forall|i0: int, j0: int|
                    0 <= i0 < i && 0 <= j0 < 9 ==> out@[j0]@[i0] == arr@[i0]@[j0],
                forall|j0: int| 0 <= j0 < j ==> out@[j0]@[i as int] == arr@[i as int]@[j0],
        {
            out[j][i] = arr[i][j];
        }
    }
    assert(out.deep_view() =~~= transpose_of(arr.deep_view(), 34, 9));
    out
}

/// The grid after copying a widget bitmap `w` of width `wx` and height
/// `wy` (row-major) onto `base`, with its top-left cell at column `x` of
/// row `y`. Cells outside that window keep their value from `base`.
pub open spec fn overlay_of(
    base: Seq<Seq<u8>>,
    w: Seq<u8>,
    wx: int,
    wy: int,
    x: int,
    y: int,
) -> Seq<Seq<u8>> {
    Seq::new(
        base.len(),
        |i: int|
            Seq::new(
                base[i].len(),
                |j: int|
                    if y <= i < y + wy && x <= j < x + wx {
                        w[(i - y) * wx + (j - x)]
                    } else {
                        base[i][j]
                    },
            ),
    )
}

/// Overlay containment: every cell outside the overlaid window keeps its
/// value from the base grid.
pub proof fn lemma_overlay_containment(
    base: Seq<Seq<u8>>,
    w: Seq<u8>,
    wx: int,
    wy: int,
    x: int,
    y: int,
    i: int,
    j: int,
)
    requires
        0 <= i < base.len(),
        0 <= j < base[i].len(),
        !(y <= i < y + wy && x <= j < x + wx),
    ensures
        overlay_of(base, w, wx, wy, x, y)[i][j] == base[i][j],
{
}

/// Overlay overwrite order: after two overlays in sequence, a cell inside
/// the window of the second shows the second bitmap, whatever the first
/// wrote there.
pub proof fn lemma_overlay_overwrite(
    base: Seq<Seq<u8>>,
    w1: Seq<u8>,
    wx1: int,
    wy1: int,
    x1: int,
    y1: int,
    w2: Seq<u8>,
    wx2: int,
    wy2: int,
    x2: int,
    y2: int,
    i: int,
    j: int,
)
    requires
        0 <= i < base.len(),
        0 <= j < base[i].len(),
        y2 <= i < y2 + wy2,
        x2 <= j < x2 + wx2,
    ensures
        overlay_of(overlay_of(base, w1, wx1, wy1, x1, y1), w2, wx2, wy2, x2, y2)[i][j] == w2[(i
            - y2) * wx2 + (j - x2)],
{
}

/// Overlay a widget's current bitmap on a frame, its top-left cell at
/// column `x` of row `y`. The window must lie inside the frame.
pub fn emplace<W: UpdatableWidget>(orig: Matrix, widget: &W, x: usize, y: usize) -> (out: Matrix)
    requires
        widget_fits(widget),
        x + widget.spec_shape().x <= 9,
        y + widget.spec_shape().y <= 34,
    ensures
        out.deep_view() == overlay_of(
            orig.deep_view(),
            widget.spec_matrix(),
            widget.spec_shape().x as int,
            widget.spec_shape().y as int,
            x as int,
            y as int,
        ),
{
    let mut out: Matrix = orig;
    let shape = widget.get_shape();
    let m = widget.get_matrix();
    let w = shape.x;
    let h = shape.y;
    for i in 0..h
        invariant
            w == widget.spec_shape().x,
            h == widget.spec_shape().y,
            m@ == widget.spec_matrix(),
            m@.len() == w * h,
            x + w <= 9,
            y + h <= 34,
            forall|r: int, c: int|
                0 <= r < 34 && 0 <= c < 9 && y <= r < y + i && x <= c < x + w ==> out@[r]@[c]
                    == m@[(r - y) * (w as int) + (c - x)],
            forall|r: int, c: int|
                0 <= r < 34 && 0 <= c < 9 && !(y <= r < y + i && x <= c < x + w) ==> out@[r]@[c]
                    == orig@[r]@[c],
    {
        for j in 0..w
            invariant
                i < h,
                w == widget.spec_shape().x,
                h == widget.spec_shape().y,
                m@ == widget.spec_matrix(),
                m@.len() == w * h,
                x + w <= 9,
                y + h <= 34,
                forall|r: int, c: int|
                    0 <= r < 34 && 0 <= c < 9 && y <= r < y + i && x <= c < x + w ==> out@[r]@[c]
                        == m@[(r - y) * (w as int) + (c - x)],
                forall|r: int, c: int|
                    r == y + i && x <= c < x + j ==> out@[r]@[c] == m@[(r - y) * (w as int) + (c
                        - x)],
                forall|r: int, c: int|
                    0 <= r < 34 && 0 <= c < 9 && !(y <= r < y + i && x <= c < x + w) && !(r == y + i
                        && x <= c < x + j) ==> out@[r]@[c] == orig@[r]@[c],
        {
            proof {
                assert((j as int) + (w as int) * (i as int) < (w as int) * (h as int))
                    by (nonlinear_arith)
                    requires
                        (j as int) < (w as int),
                        (i as int) < (h as int),
                        0 <= (j as int),
                        0 <= (i as int),
                ;
                assert((w as int) * (i as int) <= 9 * 33) by (nonlinear_arith)
                    requires
                        (w as int) <= 9,
                        0 <= (i as int) <= 33,
                ;
            }
            let ghost prev = out@;
            out[i + y][j + x] = m[j + w * i];
            proof {
                assert(out@[(y + i) as int]@[(x + j) as int] == m@[(j + w * i) as int]);
                assert((i as int) * (w as int) + (j as int) == (j + w * i) as int);
                assert forall|r: int, c: int|
                    0 <= r < 34 && 0 <= c < 9 && !(r == y + i && c == x + j) implies out@[r]@[c]
                    == prev[r]@[c] by {
                    if r == y + i {
                        assert(out@[r]@ == prev[r]@.update((x + j) as int, m@[(j + w * i) as int]));
                    }
                }
            }
        }
    }
    assert(out.deep_view() =~~= overlay_of(
        orig.deep_view(),
        widget.spec_matrix(),
        widget.spec_shape().x as int,
        widget.spec_shape().y as int,
        x as int,
        y as int,
    ));
    out
}

} // verus!
