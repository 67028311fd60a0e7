use vstd::prelude::*;

verus! {

/// The blank/background symbol: the ASCII space character.
pub const BLANK: u8 = 0x20;

/// A rectangular grid of single-byte symbols.
///
/// The cells are stored row-major: the symbol at column `x` of row `y`
/// sits at `data[y * w + x]`.
pub struct Field {
    pub w: usize,
    pub h: usize,
    pub data: Vec<u8>,
}

/// `y * w + x` stays below `w * h` for an in-bounds coordinate.
pub proof fn lemma_row_major_bound(x: int, y: int, w: int, h: int)
    requires
        0 <= x < w,
        0 <= y < h,
    ensures
        0 <= y * w + x < w * h,
{
    assert(y * w + x < w * h) by (nonlinear_arith)
        requires
            0 <= x < w,
            0 <= y < h,
    ;
    assert(0 <= y * w) by (nonlinear_arith)
        requires
            0 <= y,
            0 <= w,
    ;
}

/// Row-major indexing is injective over in-bounds coordinates.
pub proof fn lemma_row_major_injective(x1: int, y1: int, x2: int, y2: int, w: int)
    requires
        0 <= x1 < w,
        0 <= x2 < w,
        0 <= y1,
        0 <= y2,
        y1 * w + x1 == y2 * w + x2,
    ensures
        x1 == x2 && y1 == y2,
{
    assert(x1 == x2 && y1 == y2) by (nonlinear_arith)
        requires
            0 <= x1 < w,
            0 <= x2 < w,
            0 <= y1,
            0 <= y2,
            y1 * w + x1 == y2 * w + x2,
    ;
}

impl Field {
    /// Structural invariant: positive dimensions and one symbol per cell.
    pub open spec fn wf(self) -> bool {
        &&& 0 < self.w
        &&& 0 < self.h
        &&& self.data@.len() == self.w * self.h
    }

    /// The symbol at `(x, y)`: blank for every coordinate outside the grid,
    /// so that neighborhoods at the edges are well defined.
    pub open spec fn sym(self, x: int, y: int) -> u8 {
        if 0 <= x < self.w && 0 <= y < self.h {
            self.data@[y * self.w + x]
        } else {
            BLANK
        }
    }

    /// The nine symbols around `(x, y)`, row-major over the 3x3 window:
    /// entry `k` is the symbol at `(x - 1 + k % 3, y - 1 + k / 3)`.
    pub open spec fn nbhd(self, x: int, y: int) -> Seq<u8> {
        Seq::new(9, |k: int| self.sym(x - 1 + k % 3, y - 1 + k / 3))
    }

    /// A fresh all-blank grid.
    pub fn new(w: usize, h: usize) -> (r: Field)
        requires
            0 < w,
            0 < h,
            w * h <= usize::MAX,
        ensures
            r.wf(),
            r.w == w,
            r.h == h,
            forall|x: int, y: int| r.sym(x, y) == BLANK,
    {
        let n = w * h;
        let mut data: Vec<u8> = Vec::new();
        let mut i: usize = 0;
        while i < n
            invariant
                i <= n,
                data@.len() == i,
                forall|j: int| 0 <= j < i ==> data@[j] == BLANK,
            decreases n - i,
        {
            data.push(BLANK);
            i = i + 1;
        }
        let r = Field { w, h, data };
        proof {
            assert forall|x: int, y: int| r.sym(x, y) == BLANK by {
                if 0 <= x < w && 0 <= y < h {
                    lemma_row_major_bound(x, y, w as int, h as int);
                }
            }
        }
        r
    }

    /// The symbol at an in-bounds coordinate, read directly.
    pub(crate) fn at(&self, x: usize, y: usize) -> (r: u8)
        requires
            self.wf(),
            x < self.w,
            y < self.h,
        ensures
            r == self.sym(x as int, y as int),
    {
        proof {
            lemma_row_major_bound(x as int, y as int, self.w as int, self.h as int);
            vstd::std_specs::vec::axiom_spec_len(&self.data);
        }
        self.data[y * self.w + x]
    }

    /// Overwrite the symbol at an in-bounds coordinate; every other cell keeps
    /// its symbol. Out-of-bounds coordinates are a caller defect, ruled out here.
    pub fn set(&mut self, x: usize, y: usize, val: u8)
        requires
            old(self).wf(),
            x < old(self).w,
            y < old(self).h,
        ensures
            final(self).wf(),
            final(self).w == old(self).w,
            final(self).h == old(self).h,
            final(self).sym(x as int, y as int) == val,
            forall|x2: int, y2: int|
                !(x2 == x as int && y2 == y as int) ==> final(self).sym(x2, y2) == old(self).sym(
                    x2,
                    y2,
                ),
    {
        proof {
            lemma_row_major_bound(x as int, y as int, self.w as int, self.h as int);
            vstd::std_specs::vec::axiom_spec_len(&self.data);
        }
        let idx = y * self.w + x;
        self.data[idx] = val;
        proof {
            let prev = *old(self);
            assert forall|x2: int, y2: int|
                !(x2 == x as int && y2 == y as int) implies self.sym(x2, y2) == prev.sym(
                x2,
                y2,
            ) by {
                if 0 <= x2 < self.w && 0 <= y2 < self.h {
                    lemma_row_major_bound(x2, y2, self.w as int, self.h as int);
                    if y2 * self.w + x2 == y as int * self.w + x as int {
                        lemma_row_major_injective(x as int, y as int, x2, y2, self.w as int);
                    }
                }
            }
        }
    }

    /// The nine symbols around an in-bounds cell, row-major over the rows
    /// `y-1, y, y+1` and the columns `x-1, x, x+1`; positions outside the
    /// grid contribute the blank symbol.
    pub fn neighborhood(&self, x: usize, y: usize) -> (r: Vec<u8>)
        requires
            self.wf(),
            x < self.w,
            y < self.h,
        ensures
            r@ == self.nbhd(x as int, y as int),
    {
        let mut res: Vec<u8> = Vec::new();
        let mut k: usize = 0;
        while k < 9
            invariant
                self.wf(),
                x < self.w,
                y < self.h,
                k <= 9,
                res@.len() == k,
                forall|j: int|
                    0 <= j < k ==> res@[j] == self.sym(x - 1 + j % 3, y - 1 + j / 3),
            decreases 9 - k,
        {
            let dx = k % 3;
            let dy = k / 3;
            let val = if dx == 0 && x == 0 {
                BLANK
            } else if dy == 0 && y == 0 {
                BLANK
            } else {
                let cx = if dx == 0 {
                    x - 1
                } else {
                    x + (dx - 1)
                };
                let cy = if dy == 0 {
                    y - 1
                } else {
                    y + (dy - 1)
                };
                if cx < self.w && cy < self.h {
                    self.at(cx, cy)
                } else {
                    BLANK
                }
            };
            res.push(val);
            k = k + 1;
        }
        proof {
            assert(res@ =~= self.nbhd(x as int, y as int));
        }
        res
    }

    /// Every coordinate of the grid as an `(x, y)` pair.
    ///
    /// Relies on itertools' `cartesian_product`: pairing `0..w` with `0..h`
    /// yields one pair per coordinate, with the first range varying slowest,
    /// so the pair at position `i` is `(i / h, i % h)`.
    #[verifier::external_body]
    pub fn coords(&self) -> (r: Vec<(usize, usize)>)
        requires
            self.wf(),
        ensures
            r@.len() == self.w * self.h,
            forall|i: int|
                0 <= i < r@.len() ==> (#[trigger] r@[i]).0 as int == i / (self.h as int)
                    && r@[i].1 as int == i % (self.h as int),
    {
        itertools::Itertools::cartesian_product(0..self.w, 0..self.h).collect()
    }

    /// The symbol at any coordinate, blank outside the grid (including
    /// negative coordinates).
    pub fn get(&self, x: isize, y: isize) -> (r: u8)
        requires
            self.wf(),
        ensures
            r == self.sym(x as int, y as int),
    {
        if x < 0 || y < 0 {
            return BLANK;
        }
        let xu = x as usize;
        let yu = y as usize;
        if xu < self.w && yu < self.h {
            proof {
                lemma_row_major_bound(xu as int, yu as int, self.w as int, self.h as int);
                vstd::std_specs::vec::axiom_spec_len(&self.data);
            }
            self.data[yu * self.w + xu]
        } else {
            BLANK
        }
    }

    /// Draw the grid as text: a dashed frame around one line per row,
    /// every symbol as its own character.
    pub fn to_string(&self) -> (r: String)
        requires
            self.wf(),
            ascii_only(*self),
        ensures
            r@ == render_chars(*self),
    {
        let mut out: Vec<u8> = Vec::new();
        out.push(0x2f);
        push_dashes(&mut out, self.w);
        out.push(0x5c);
        out.push(0x0a);
        proof {
            assert(out@ =~= top_bytes(*self));
            assert(out@ + rows_bytes(*self, 0) =~= out@);
        }
        let mut y: usize = 0;
        while y < self.h
            invariant
                self.wf(),
                ascii_only(*self),
                y <= self.h,
                out@ == top_bytes(*self) + rows_bytes(*self, y as int),
                forall|i: int| 0 <= i < out@.len() ==> out@[i] < 0x80,
            decreases self.h - y,
        {
            let ghost row_start = out@;
            out.push(0x7c);
            let mut x: usize = 0;
            proof {
                assert(row_start + seq![0x7cu8] + Seq::new(0, |j: int| self.sym(j, y as int))
                    =~= out@);
            }
            while x < self.w
                invariant
                    self.wf(),
                    ascii_only(*self),
                    x <= self.w,
                    y < self.h,
                    out@ == row_start + seq![0x7cu8] + Seq::new(
                        x as nat,
                        |j: int| self.sym(j, y as int),
                    ),
                    forall|i: int| 0 <= i < row_start.len() ==> row_start[i] < 0x80,
                decreases self.w - x,
            {
                out.push(self.at(x, y));
                proof {
                    assert(row_start + seq![0x7cu8] + Seq::new(
                        (x + 1) as nat,
                        |j: int| self.sym(j, y as int),
                    ) =~= (row_start + seq![0x7cu8] + Seq::new(
                        x as nat,
                        |j: int| self.sym(j, y as int),
                    )).push(self.sym(x as int, y as int)));
                }
                x = x + 1;
            }
            out.push(0x7c);
            out.push(0x0a);
            proof {
                assert(out@ =~= top_bytes(*self) + rows_bytes(*self, y as int + 1));
                assert forall|i: int| 0 <= i < out@.len() implies out@[i] < 0x80 by {}
            }
            y = y + 1;
        }
        out.push(0x5c);
        push_dashes(&mut out, self.w);
        out.push(0x2f);
        proof {
            assert(out@ =~= render_bytes(*self));
        }
        let s = ascii_to_string(out);
        proof {
            assert(s@ =~= render_chars(*self));
        }
        s
    }

    /// A fresh grid holding the same symbols as this one.
    pub(crate) fn duplicate(&self) -> (r: Field)
        ensures
            same_grid(r, *self),
    {
        let mut data: Vec<u8> = Vec::new();
        let mut i: usize = 0;
        let n = self.data.len();
        while i < n
            invariant
                i <= n,
                n == self.data@.len(),
                data@.len() == i,
                forall|j: int| 0 <= j < i ==> data@[j] == self.data@[j],
            decreases n - i,
        {
            data.push(self.data[i]);
            i = i + 1;
        }
        proof {
            assert(data@ =~= self.data@);
        }
        Field { w: self.w, h: self.h, data }
    }
}

/// A run of `w` dash bytes, the horizontal edge of the drawn frame.
pub open spec fn dash_row(w: int) -> Seq<u8> {
    Seq::new(w as nat, |i: int| 0x2du8)
}

/// The first line of the drawing: `/`, the dashes, `\`, a newline.
pub open spec fn top_bytes(f: Field) -> Seq<u8> {
    seq![0x2fu8] + dash_row(f.w as int) + seq![0x5cu8, 0x0au8]
}

/// One drawn grid row: `|`, the row's symbols, `|`, a newline.
pub open spec fn row_bytes(f: Field, y: int) -> Seq<u8> {
    seq![0x7cu8] + Seq::new(f.w as nat, |x: int| f.sym(x, y)) + seq![0x7cu8, 0x0au8]
}

/// The first `k` drawn grid rows, top to bottom.
pub open spec fn rows_bytes(f: Field, k: int) -> Seq<u8>
    decreases k,
{
    if k <= 0 {
        Seq::empty()
    } else {
        rows_bytes(f, k - 1) + row_bytes(f, k - 1)
    }
}

/// The whole drawing: the top edge, every row, and the bottom edge
/// `\`, dashes, `/` (without a trailing newline).
pub open spec fn render_bytes(f: Field) -> Seq<u8> {
    top_bytes(f) + rows_bytes(f, f.h as int) + seq![0x5cu8] + dash_row(f.w as int) + seq![0x2fu8]
}

/// The drawing as text, one character per byte.
pub open spec fn render_chars(f: Field) -> Seq<char> {
    render_bytes(f).map_values(|b: u8| b as char)
}

/// Every symbol in the grid is an ASCII byte.
pub open spec fn ascii_only(f: Field) -> bool {
    forall|x: int, y: int|
        0 <= x < f.w && 0 <= y < f.h ==> #[trigger] f.sym(x, y) < 0x80
}

/// Relies on `String::from_utf8`: ASCII bytes are valid UTF-8 and decode to
/// the characters with the same values, one per byte.
#[verifier::external_body]
fn ascii_to_string(bytes: Vec<u8>) -> (r: String)
    requires
        forall|i: int| 0 <= i < bytes@.len() ==> bytes@[i] < 0x80,
    ensures
        r@.len() == bytes@.len(),
        forall|i: int| 0 <= i < bytes@.len() ==> r@[i] == bytes@[i] as char,
{
    match String::from_utf8(bytes) {
        Ok(s) => s,
        Err(_) => String::new(),
    }
}

/// Append `w` dashes.
fn push_dashes(out: &mut Vec<u8>, w: usize)
    ensures
        final(out)@ == old(out)@ + dash_row(w as int),
{
    let mut i: usize = 0;
    proof {
        assert(old(out)@ + dash_row(0) =~= old(out)@);
    }
    while i < w
        invariant
            i <= w,
            out@ == old(out)@ + dash_row(i as int),
        decreases w - i,
    {
        out.push(0x2d);
        proof {
            assert(old(out)@ + dash_row(i + 1) =~= (old(out)@ + dash_row(i as int)).push(0x2du8));
        }
        i = i + 1;
    }
}

/// Two grids hold the same dimensions and the same symbols.
pub open spec fn same_grid(a: Field, b: Field) -> bool {
    &&& a.w == b.w
    &&& a.h == b.h
    &&& a.data@ == b.data@
}

/// Grid equality is pointwise symbol equality over equal dimensions.
pub proof fn lemma_same_grid_pointwise(a: Field, b: Field)
    requires
        a.wf(),
        b.wf(),
        a.w == b.w,
        a.h == b.h,
        forall|x: int, y: int|
            0 <= x < a.w && 0 <= y < a.h ==> #[trigger] a.sym(x, y) == b.sym(x, y),
    ensures
        same_grid(a, b),
{
    assert forall|i: int| 0 <= i < a.data@.len() implies a.data@[i] == b.data@[i] by {
        lemma_index_decompose(i, a.w as int, a.h as int);
        let x = i % (a.w as int);
        let y = i / (a.w as int);
        assert(a.sym(x, y) == b.sym(x, y));
    }
    assert(a.data@ =~= b.data@);
}

/// Split a row-major index into its column and row.
pub proof fn lemma_index_decompose(i: int, w: int, h: int)
    requires
        0 < w,
        0 <= i < w * h,
    ensures
        0 <= i % w < w,
        0 <= i / w < h,
        (i / w) * w + (i % w) == i,
{
    vstd::arithmetic::div_mod::lemma_fundamental_div_mod(i, w);
    assert(0 <= i % w < w) by {
        vstd::arithmetic::div_mod::lemma_mod_bound(i, w);
    }
    assert(0 <= i / w) by {
        vstd::arithmetic::div_mod::lemma_div_pos_is_pos(i, w);
    }
    assert(i / w < h) by {
        if i / w >= h {
            vstd::arithmetic::mul::lemma_mul_inequality(h, i / w, w);
            assert(h * w <= (i / w) * w);
            assert(w * (i / w) + i % w == i);
            assert((i / w) * w == w * (i / w)) by (nonlinear_arith);
            assert(h * w == w * h) by (nonlinear_arith);
        }
    }
    assert((i / w) * w == w * (i / w)) by (nonlinear_arith);
}

impl PartialEq for Field {
    /// Grids are equal when the dimensions agree and every cell agrees.
    fn eq(&self, other: &Field) -> (r: bool) {
        let de = self.data == other.data;
        proof {
            if de {
                assert(self.data@ =~= other.data@);
            }
        }
        self.w == other.w && self.h == other.h && de
    }
}

impl vstd::std_specs::cmp::PartialEqSpecImpl for Field {
    open spec fn obeys_eq_spec() -> bool {
        true
    }

    open spec fn eq_spec(&self, other: &Field) -> bool {
        same_grid(*self, *other)
    }
}

} // verus!
