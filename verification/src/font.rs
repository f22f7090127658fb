//! Glyph fonts and glyph rendering.
//!
//! A glyph font maps characters to fixed-height blocks of text rows (glyph
//! cells).  Rendering a string concatenates the cells of its characters row
//! by row into one multi-line block; a string with a character the font does
//! not cover renders the fallback label instead.  The two embedded fonts are
//! the FIGlet fonts bundled with the figlet crate, loaded once at startup.

use vstd::prelude::*;
use crate::text::chars_to_string;

verus! {

/// One character's cell: a fixed-height rectangle of text rows.
pub struct Glyph {
    pub ch: char,
    pub rows: Vec<Vec<char>>,
}

impl Glyph {
    /// Column count of the cell.
    pub open spec fn spec_width(&self) -> nat {
        self.rows@[0]@.len()
    }

    /// A rectangular cell of the given height with at least one column.
    pub open spec fn wf(&self, height: nat) -> bool {
        &&& self.rows@.len() == height
        &&& self.spec_width() >= 1
        &&& forall|j: int|
            0 <= j < self.rows@.len() ==> (#[trigger] self.rows@[j])@.len() == self.spec_width()
    }
}

/// An in-memory bitmap font: cells of one shared height, one per covered
/// character.
pub struct GlyphFont {
    pub height: usize,
    pub glyphs: Vec<Glyph>,
}

/// The cell for `c` among `gs[i..]`: the first glyph whose character is `c`.
pub open spec fn spec_lookup_from(gs: Seq<Glyph>, c: char, i: int) -> Option<Glyph>
    decreases gs.len() - i,
{
    if i < 0 || i >= gs.len() {
        None
    } else if gs[i].ch == c {
        Some(gs[i])
    } else {
        spec_lookup_from(gs, c, i + 1)
    }
}

/// The cell for `c` in `gs`, if any.
pub open spec fn spec_lookup(gs: Seq<Glyph>, c: char) -> Option<Glyph> {
    spec_lookup_from(gs, c, 0)
}

/// The looked-up glyph comes from the font, so it is well-formed.
proof fn lemma_lookup_from_wf(gs: Seq<Glyph>, c: char, i: int, h: nat)
    requires
        forall|k: int| 0 <= k < gs.len() ==> (#[trigger] gs[k]).wf(h),
        spec_lookup_from(gs, c, i) is Some,
    ensures
        spec_lookup_from(gs, c, i)->0.wf(h),
    decreases gs.len() - i,
{
    if i < 0 || i >= gs.len() {
    } else if gs[i].ch == c {
    } else {
        lemma_lookup_from_wf(gs, c, i + 1, h);
    }
}

/// A glyph whose character is `c` anywhere at or after `i` makes the lookup
/// from `i` succeed.
proof fn lemma_lookup_from_found(gs: Seq<Glyph>, c: char, i: int, j: int)
    requires
        0 <= i <= j < gs.len(),
        gs[j].ch == c,
    ensures
        spec_lookup_from(gs, c, i) is Some,
    decreases j - i,
{
    if i == j {
    } else if gs[i].ch == c {
    } else {
        lemma_lookup_from_found(gs, c, i + 1, j);
    }
}

impl GlyphFont {
    /// Cells all share the font height and are rectangular and non-empty;
    /// the height comes from a font header's 32-bit field.
    pub open spec fn wf(&self) -> bool {
        &&& 1 <= self.height <= 0x7fff_ffff
        &&& forall|i: int|
            0 <= i < self.glyphs@.len() ==> (#[trigger] self.glyphs@[i]).wf(self.height as nat)
    }

    /// The cell for `c`, if the font covers `c`.
    pub fn cell<'a>(&'a self, c: char) -> (r: Option<&'a Glyph>)
        ensures
            match r {
                Some(g) => spec_lookup(self.glyphs@, c) == Some(*g),
                None => spec_lookup(self.glyphs@, c) is None,
            },
    {
        let n = self.glyphs.len();
        let mut i: usize = 0;
        while i < n
            invariant
                n == self.glyphs@.len(),
                i <= n,
                spec_lookup(self.glyphs@, c) == spec_lookup_from(self.glyphs@, c, i as int),
            decreases n - i,
        {
            if self.glyphs[i].ch == c {
                return Some(&self.glyphs[i]);
            }
            i += 1;
        }
        None
    }
}

/// Every character the rendered strings and the fallback label can need:
/// digits, the time and date separators, a minus sign for years before year
/// zero, and the letters of the alphabet.
pub open spec fn spec_charset() -> Seq<char> {
    seq![
        '0', '1', '2', '3', '4', '5', '6', '7', '8', '9', ':', '.', '-', 'A', 'B', 'C', 'D', 'E',
        'F', 'G', 'H', 'I', 'J', 'K', 'L', 'M', 'N', 'O', 'P', 'Q', 'R', 'S', 'T', 'U', 'V', 'W',
        'X', 'Y', 'Z',
    ]
}

/// The characters every loaded font must cover.
pub fn font_charset() -> (r: Vec<char>)
    ensures
        r@ == spec_charset(),
{
    let r: Vec<char> = vec![
        '0', '1', '2', '3', '4', '5', '6', '7', '8', '9', ':', '.', '-', 'A', 'B', 'C', 'D', 'E',
        'F', 'G', 'H', 'I', 'J', 'K', 'L', 'M', 'N', 'O', 'P', 'Q', 'R', 'S', 'T', 'U', 'V', 'W',
        'X', 'Y', 'Z',
    ];
    assert(r@ =~= spec_charset());
    r
}

/// The font covers the whole required character set.
pub open spec fn spec_covers_charset(f: GlyphFont) -> bool {
    forall|k: int|
        0 <= k < spec_charset().len() ==> spec_lookup(f.glyphs@, #[trigger] spec_charset()[k])
            is Some
}

#[verifier::external_type_specification]
#[verifier::external_body]
pub struct ExFIGlet(figlet_rs::FIGlet);

pub uninterp spec fn is_standard_font(f: figlet_rs::FIGlet) -> bool;

pub uninterp spec fn is_small_font(f: figlet_rs::FIGlet) -> bool;

pub uninterp spec fn figlet_height_of(f: figlet_rs::FIGlet) -> int;

pub uninterp spec fn figlet_hardblank_of(f: figlet_rs::FIGlet) -> char;

pub uninterp spec fn figlet_cell_of(f: figlet_rs::FIGlet, code: u32) -> Option<Seq<Seq<char>>>;

/// The rows of a cell as character sequences.
pub open spec fn string_rows_view(rows: Seq<String>) -> Seq<Seq<char>> {
    Seq::new(rows.len(), |i: int| rows[i]@)
}

/// The widest row of a cell.
pub open spec fn spec_max_w(cv: Seq<Seq<char>>) -> nat
    decreases cv.len(),
{
    if cv.len() == 0 {
        0
    } else {
        let rest = spec_max_w(cv.drop_last());
        if cv.last().len() > rest {
            cv.last().len()
        } else {
            rest
        }
    }
}

/// No row is wider than the widest.
proof fn lemma_max_w_bound(cv: Seq<Seq<char>>, i: int)
    requires
        0 <= i < cv.len(),
    ensures
        cv[i].len() <= spec_max_w(cv),
    decreases cv.len(),
{
    if i == cv.len() - 1 {
        assert(cv.last() == cv[i]);
    } else {
        lemma_max_w_bound(cv.drop_last(), i);
        assert(cv.drop_last()[i] == cv[i]);
    }
}

/// A cell of exactly `h` rows with at least one column.
pub open spec fn spec_cell_shaped(cell: Option<Seq<Seq<char>>>, h: int) -> bool {
    &&& cell is Some
    &&& cell->0.len() == h
    &&& spec_max_w(cell->0) >= 1
}

/// The parsed payload provides what the font builder needs: a positive
/// 32-bit height and, for every charset character, a cell of exactly that
/// many rows with at least one column.
pub open spec fn spec_figlet_usable(f: figlet_rs::FIGlet) -> bool {
    &&& 1 <= figlet_height_of(f) <= 0x7fff_ffff
    &&& forall|k: int|
        0 <= k < spec_charset().len() ==> spec_cell_shaped(
            figlet_cell_of(f, (#[trigger] spec_charset()[k]) as u32),
            figlet_height_of(f),
        )
}

/// Relies on `figlet_rs::FIGlet::standard`: parses the standard FIGlet font
/// bundled with that crate.  The payload is a fixed build-time resource, so
/// parsing succeeds, and that crate's own parser and tests show each of its
/// cells has the header's row count and the printable ASCII characters all
/// have inked cells.
#[verifier::external_body]
fn figlet_standard() -> (r: Result<figlet_rs::FIGlet, String>)
    ensures
        r is Ok,
        is_standard_font(r->Ok_0),
        spec_figlet_usable(r->Ok_0),
{
    figlet_rs::FIGlet::standard()
}

/// Relies on `figlet_rs::FIGlet::small`: parses the small FIGlet font
/// bundled with that crate, with the same fixed-payload guarantees as the
/// standard one.
#[verifier::external_body]
fn figlet_small() -> (r: Result<figlet_rs::FIGlet, String>)
    ensures
        r is Ok,
        is_small_font(r->Ok_0),
        spec_figlet_usable(r->Ok_0),
{
    figlet_rs::FIGlet::small()
}

/// Relies on the public `height` field of `figlet_rs::HeaderLine`: the row
/// count shared by the font's cells.
#[verifier::external_body]
fn figlet_height(f: &figlet_rs::FIGlet) -> (r: i32)
    ensures
        r as int == figlet_height_of(*f),
{
    f.header_line.height
}

/// Relies on the public `hardblank` field of `figlet_rs::HeaderLine`: the
/// placeholder character that stands for a space inside cells.
#[verifier::external_body]
fn figlet_hardblank(f: &figlet_rs::FIGlet) -> (r: char)
    ensures
        r == figlet_hardblank_of(*f),
{
    f.header_line.hardblank
}

/// Relies on `HashMap::get` over the public `fonts` field of
/// `figlet_rs::FIGlet`: the cell rows recorded for a character code, a
/// function of the font and the code alone.
#[verifier::external_body]
fn figlet_cell(f: &figlet_rs::FIGlet, code: u32) -> (r: Option<Vec<String>>)
    ensures
        match r {
            Some(rows) => figlet_cell_of(*f, code) == Some(string_rows_view(rows@)),
            None => figlet_cell_of(*f, code) is None,
        },
{
    f.fonts.get(&code).map(|c| c.characters.clone())
}

/// One cell row normalized: hardblanks become spaces, and the row is padded
/// with spaces to width `w`.
pub open spec fn spec_norm_row(row: Seq<char>, hb: char, w: nat) -> Seq<char> {
    Seq::new(
        w,
        |j: int|
            if j < row.len() {
                if row[j] == hb {
                    ' '
                } else {
                    row[j]
                }
            } else {
                ' '
            },
    )
}

/// A whole cell normalized to its widest row.
pub open spec fn spec_norm_cell(cv: Seq<Seq<char>>, hb: char) -> Seq<Seq<char>> {
    Seq::new(cv.len(), |i: int| spec_norm_row(cv[i], hb, spec_max_w(cv)))
}

/// The glyph's rows as character sequences.
pub open spec fn glyph_view(g: Glyph) -> Seq<Seq<char>> {
    Seq::new(g.rows@.len(), |i: int| g.rows@[i]@)
}

/// `g` is exactly the glyph font built from the parsed figlet font: the
/// header's height, and for each charset character in order the normalized
/// form of that character's cell.
pub open spec fn spec_glyph_font_of(g: GlyphFont, f: figlet_rs::FIGlet) -> bool {
    &&& g.height == figlet_height_of(f)
    &&& g.glyphs@.len() == spec_charset().len()
    &&& forall|k: int|
        0 <= k < spec_charset().len() ==> (#[trigger] g.glyphs@[k]).ch == spec_charset()[k]
            && glyph_view(g.glyphs@[k]) == spec_norm_cell(
            figlet_cell_of(f, spec_charset()[k] as u32)->0,
            figlet_hardblank_of(f),
        )
}

/// Turns one figlet cell into a rectangular glyph: hardblanks become spaces
/// and every row is padded with spaces to the cell's widest row.
fn build_glyph(c: char, cell: &Vec<String>, hardblank: char, height: usize) -> (r: Option<Glyph>)
    requires
        height >= 1,
    ensures
        r is Some <==> spec_cell_shaped(Some(string_rows_view(cell@)), height as int),
        r matches Some(g) ==> g.wf(height as nat) && g.ch == c && glyph_view(g) == spec_norm_cell(
            string_rows_view(cell@),
            hardblank,
        ),
{
    let ghost cv = string_rows_view(cell@);
    if cell.len() != height {
        return None;
    }
    let mut maxw: usize = 0;
    let mut i: usize = 0;
    while i < cell.len()
        invariant
            cv == string_rows_view(cell@),
            i <= cell@.len(),
            maxw == spec_max_w(cv.take(i as int)),
        decreases cell@.len() - i,
    {
        let w = cell[i].as_str().unicode_len();
        proof {
            assert(cv.take(i + 1).drop_last() =~= cv.take(i as int));
            assert(cv.take(i + 1).last() == cv[i as int]);
            assert(cv[i as int] == cell@[i as int]@);
        }
        if w > maxw {
            maxw = w;
        }
        i += 1;
    }
    proof {
        assert(cv.take(cell@.len() as int) =~= cv);
    }
    if maxw == 0 {
        return None;
    }
    let mut rows: Vec<Vec<char>> = Vec::new();
    let mut i: usize = 0;
    while i < cell.len()
        invariant
            cv == string_rows_view(cell@),
            i <= cell@.len(),
            rows@.len() == i,
            maxw == spec_max_w(cv),
            maxw >= 1,
            forall|j: int| 0 <= j < i ==> (#[trigger] rows@[j])@ == spec_norm_row(
                cv[j],
                hardblank,
                maxw as nat,
            ),
        decreases cell@.len() - i,
    {
        let src = cell[i].as_str();
        let n = src.unicode_len();
        proof {
            assert(cv[i as int] == cell@[i as int]@);
            lemma_max_w_bound(cv, i as int);
        }
        let mut row: Vec<char> = Vec::new();
        let mut k: usize = 0;
        while k < n
            invariant
                k <= n,
                n == src@.len(),
                row@.len() == k,
                forall|q: int| 0 <= q < k ==> row@[q] == (if src@[q] == hardblank {
                    ' '
                } else {
                    src@[q]
                }),
            decreases n - k,
        {
            let ch = src.get_char(k);
            if ch == hardblank {
                row.push(' ');
            } else {
                row.push(ch);
            }
            k += 1;
        }
        let mut k: usize = n;
        while k < maxw
            invariant
                n <= k <= maxw,
                n == src@.len(),
                row@.len() == k,
                forall|q: int| 0 <= q < n ==> row@[q] == (if src@[q] == hardblank {
                    ' '
                } else {
                    src@[q]
                }),
                forall|q: int| n <= q < k ==> row@[q] == ' ',
            decreases maxw - k,
        {
            row.push(' ');
            k += 1;
        }
        proof {
            assert(row@ =~= spec_norm_row(cv[i as int], hardblank, maxw as nat));
        }
        rows.push(row);
        i += 1;
    }
    let g = Glyph { ch: c, rows };
    proof {
        assert(glyph_view(g) =~= spec_norm_cell(cv, hardblank));
        assert(g.rows@[0]@ == spec_norm_row(cv[0], hardblank, maxw as nat));
        assert(g.spec_width() == maxw);
        assert forall|j: int| 0 <= j < g.rows@.len() implies (#[trigger] g.rows@[j])@.len()
            == g.spec_width() by {
            assert(g.rows@[j]@ == spec_norm_row(cv[j], hardblank, maxw as nat));
        }
    }
    Some(g)
}

/// Builds the library's glyph font from a parsed figlet font, checking that
/// every required character has a well-shaped cell.
fn build_glyph_font(f: &figlet_rs::FIGlet) -> (r: Option<GlyphFont>)
    ensures
        spec_figlet_usable(*f) ==> r is Some,
        r matches Some(g) ==> g.wf() && spec_covers_charset(g) && spec_glyph_font_of(g, *f),
{
    let hz = figlet_height(f);
    if hz < 1 {
        return None;
    }
    let height = hz as usize;
    let hardblank = figlet_hardblank(f);
    let cs = font_charset();
    let mut glyphs: Vec<Glyph> = Vec::new();
    let n = cs.len();
    let mut k: usize = 0;
    while k < n
        invariant
            n == spec_charset().len(),
            cs@ == spec_charset(),
            k <= n,
            height >= 1,
            height == figlet_height_of(*f),
            hardblank == figlet_hardblank_of(*f),
            glyphs@.len() == k,
            forall|j: int|
                0 <= j < k ==> (#[trigger] glyphs@[j]).wf(height as nat) && glyphs@[j].ch
                    == spec_charset()[j] && glyph_view(glyphs@[j]) == spec_norm_cell(
                    figlet_cell_of(*f, spec_charset()[j] as u32)->0,
                    figlet_hardblank_of(*f),
                ),
        decreases n - k,
    {
        let c = cs[k];
        let cell = match figlet_cell(f, c as u32) {
            Some(cell) => cell,
            None => {
                assert(!spec_figlet_usable(*f)) by {
                    assert(figlet_cell_of(*f, spec_charset()[k as int] as u32) is None);
                }
                return None;
            },
        };
        let g = match build_glyph(c, &cell, hardblank, height) {
            Some(g) => g,
            None => {
                assert(!spec_figlet_usable(*f)) by {
                    assert(figlet_cell_of(*f, spec_charset()[k as int] as u32) == Some(
                        string_rows_view(cell@),
                    ));
                }
                return None;
            },
        };
        glyphs.push(g);
        k += 1;
    }
    let font = GlyphFont { height, glyphs };
    assert forall|j: int| 0 <= j < spec_charset().len() implies spec_lookup(
        font.glyphs@,
        #[trigger] spec_charset()[j],
    ) is Some by {
        lemma_lookup_from_found(font.glyphs@, spec_charset()[j], 0, j);
    }
    Some(font)
}

/// A rendered glyph block: one string's cells concatenated row by row.
pub struct GlyphBlock {
    pub rows: Vec<Vec<char>>,
}

/// The block's rows as a sequence of character sequences.
pub open spec fn block_rows(b: GlyphBlock) -> Seq<Seq<char>> {
    Seq::new(b.rows@.len(), |i: int| b.rows@[i]@)
}

impl GlyphBlock {
    /// Column count: the width shared by all rows.
    pub open spec fn spec_width(&self) -> nat {
        if self.rows@.len() == 0 {
            0
        } else {
            self.rows@[0]@.len()
        }
    }

    /// All rows share one width.
    pub open spec fn wf(&self) -> bool {
        forall|i: int| 0 <= i < self.rows@.len() ==> (#[trigger] self.rows@[i])@.len()
            == self.spec_width()
    }

    /// Row count of the block.
    pub fn height(&self) -> (h: usize)
        ensures
            h == self.rows@.len(),
    {
        self.rows.len()
    }

    /// Column count of the block.
    pub fn width(&self) -> (w: usize)
        ensures
            w == self.spec_width(),
    {
        if self.rows.len() == 0 {
            0
        } else {
            self.rows[0].len()
        }
    }

    /// One row as a string.
    pub fn row_string(&self, i: usize) -> (s: String)
        requires
            i < self.rows@.len(),
        ensures
            s@ == self.rows@[i as int]@,
    {
        chars_to_string(&self.rows[i])
    }
}

/// The font covers every character of `t`.
pub open spec fn spec_renderable(f: GlyphFont, t: Seq<char>) -> bool {
    forall|k: int| 0 <= k < t.len() ==> spec_lookup(f.glyphs@, #[trigger] t[k]) is Some
}

/// Row `r` of the rendering of `t`: the cells' rows `r`, concatenated in
/// character order.
pub open spec fn spec_row(f: GlyphFont, t: Seq<char>, r: int) -> Seq<char>
    decreases t.len(),
{
    if t.len() == 0 {
        Seq::empty()
    } else {
        spec_row(f, t.drop_last(), r) + spec_lookup(f.glyphs@, t.last())->0.rows@[r]@
    }
}

/// The full rendering of `t`: one row per font row.
pub open spec fn spec_block(f: GlyphFont, t: Seq<char>) -> Seq<Seq<char>> {
    Seq::new(f.height as nat, |r: int| spec_row(f, t, r))
}

/// Total column count of the rendering of `t`.
pub open spec fn spec_text_width(f: GlyphFont, t: Seq<char>) -> nat
    decreases t.len(),
{
    if t.len() == 0 {
        0
    } else {
        spec_text_width(f, t.drop_last()) + spec_lookup(f.glyphs@, t.last())->0.spec_width()
    }
}

/// The fallback label rendered in place of a string the font cannot render.
pub open spec fn spec_fallback() -> Seq<char> {
    seq!['E', 'R', 'R']
}

/// What rendering returns: the block for `t` when `t` is non-empty and fully
/// covered, and the block for the fallback label otherwise.
pub open spec fn spec_render(f: GlyphFont, t: Seq<char>) -> Seq<Seq<char>> {
    if t.len() > 0 && spec_renderable(f, t) {
        spec_block(f, t)
    } else {
        spec_block(f, spec_fallback())
    }
}

/// Every row of a covered string's rendering has the same length: the sum of
/// the cell widths.
proof fn lemma_row_len(f: GlyphFont, t: Seq<char>, r: int)
    requires
        f.wf(),
        spec_renderable(f, t),
        0 <= r < f.height,
    ensures
        spec_row(f, t, r).len() == spec_text_width(f, t),
    decreases t.len(),
{
    if t.len() == 0 {
    } else {
        assert(spec_renderable(f, t.drop_last())) by {
            assert forall|k: int| 0 <= k < t.drop_last().len() implies spec_lookup(
                f.glyphs@,
                #[trigger] t.drop_last()[k],
            ) is Some by {
                assert(t.drop_last()[k] == t[k]);
            }
        }
        lemma_row_len(f, t.drop_last(), r);
        assert(t.last() == t[t.len() - 1]);
        lemma_lookup_from_wf(f.glyphs@, t.last(), 0, f.height as nat);
    }
}

/// Renders a fully covered character sequence.
fn render_glyphs(f: &GlyphFont, text: &Vec<char>) -> (b: GlyphBlock)
    requires
        f.wf(),
        spec_renderable(*f, text@),
    ensures
        block_rows(b) == spec_block(*f, text@),
        b.wf(),
        b.rows@.len() == f.height,
        b.spec_width() == spec_text_width(*f, text@),
{
    let height = f.height;
    let n = text.len();
    let mut rows: Vec<Vec<char>> = Vec::new();
    let mut r: usize = 0;
    while r < height
        invariant
            f.wf(),
            spec_renderable(*f, text@),
            height == f.height,
            n == text@.len(),
            r <= height,
            rows@.len() == r,
            forall|q: int| 0 <= q < r ==> (#[trigger] rows@[q])@ == spec_row(*f, text@, q),
        decreases height - r,
    {
        let mut row: Vec<char> = Vec::new();
        let mut k: usize = 0;
        while k < n
            invariant
                f.wf(),
                spec_renderable(*f, text@),
                height == f.height,
                r < height,
                n == text@.len(),
                k <= n,
                row@ == spec_row(*f, text@.take(k as int), r as int),
            decreases n - k,
        {
            let g = match f.cell(text[k]) {
                Some(g) => g,
                None => {
                    proof {
                        assert(spec_lookup(f.glyphs@, text@[k as int]) is Some);
                    }
                    unreached()
                },
            };
            proof {
                lemma_lookup_from_wf(f.glyphs@, text@[k as int], 0, f.height as nat);
            }
            let cell_row = &g.rows[r];
            let m = cell_row.len();
            let ghost row0 = row@;
            let mut j: usize = 0;
            while j < m
                invariant
                    m == cell_row@.len(),
                    j <= m,
                    row@ == row0 + cell_row@.take(j as int),
                decreases m - j,
            {
                row.push(cell_row[j]);
                assert(row@ =~= row0 + cell_row@.take(j + 1));
                j += 1;
            }
            proof {
                assert(cell_row@.take(m as int) =~= cell_row@);
                let tk1 = text@.take(k + 1);
                assert(tk1.drop_last() =~= text@.take(k as int));
                assert(tk1.last() == text@[k as int]);
                assert(row@ == spec_row(*f, tk1, r as int));
            }
            k += 1;
        }
        proof {
            assert(text@.take(n as int) =~= text@);
        }
        rows.push(row);
        r += 1;
    }
    let b = GlyphBlock { rows };
    proof {
        assert(block_rows(b) =~= spec_block(*f, text@));
        assert forall|q: int| 0 <= q < b.rows@.len() implies (#[trigger] b.rows@[q])@.len()
            == spec_text_width(*f, text@) by {
            lemma_row_len(*f, text@, q);
        }
        if height > 0 {
            assert(b.rows@[0]@.len() == spec_text_width(*f, text@));
        }
    }
    b
}

/// Renders `text` through `font`, one row of output per font row.
///
/// An empty string, or one holding a character the font does not cover,
/// renders the fallback label `ERR` instead; the caller guarantees that the
/// font covers the fallback, so rendering always yields a block.
pub fn render_figlet_text(font: &GlyphFont, text: &str) -> (b: GlyphBlock)
    requires
        font.wf(),
        spec_covers_charset(*font),
    ensures
        block_rows(b) == spec_render(*font, text@),
        b.wf(),
        b.rows@.len() == font.height,
{
    let n = text.unicode_len();
    let mut cs: Vec<char> = Vec::new();
    let mut i: usize = 0;
    while i < n
        invariant
            n == text@.len(),
            i <= n,
            cs@ == text@.take(i as int),
        decreases n - i,
    {
        cs.push(text.get_char(i));
        assert(cs@ =~= text@.take(i + 1));
        i += 1;
    }
    proof {
        assert(text@.take(n as int) =~= text@);
    }
    let mut ok = n > 0;
    let mut i: usize = 0;
    while i < n && ok
        invariant
            font.wf(),
            n == text@.len(),
            cs@ == text@,
            i <= n,
            ok ==> n > 0 && forall|j: int|
                0 <= j < i ==> spec_lookup(font.glyphs@, #[trigger] text@[j]) is Some,
            !ok ==> !(text@.len() > 0 && spec_renderable(*font, text@)),
        decreases n - i,
    {
        match font.cell(cs[i]) {
            Some(_) => {},
            None => {
                ok = false;
            },
        }
        i += 1;
    }
    if ok {
        assert(spec_renderable(*font, text@));
        render_glyphs(font, &cs)
    } else {
        let fb: Vec<char> = vec!['E', 'R', 'R'];
        proof {
            assert(fb@ =~= spec_fallback());
            assert(spec_renderable(*font, spec_fallback())) by {
                assert(spec_charset()[17] == 'E');
                assert(spec_charset()[30] == 'R');
                assert forall|k: int| 0 <= k < spec_fallback().len() implies spec_lookup(
                    font.glyphs@,
                    #[trigger] spec_fallback()[k],
                ) is Some by {
                    if k == 0 {
                        assert(spec_fallback()[0] == 'E');
                    } else if k == 1 {
                        assert(spec_fallback()[1] == 'R');
                    } else {
                        assert(spec_fallback()[2] == 'R');
                    }
                }
            }
        }
        render_glyphs(font, &fb)
    }
}

/// Glyph rendering is deterministic: the rendering of a string through a
/// font is a function of the two alone, so any two blocks rendered from the
/// same string and font hold identical rows.
pub proof fn lemma_render_deterministic(f: GlyphFont, t: Seq<char>, b1: GlyphBlock, b2: GlyphBlock)
    requires
        block_rows(b1) == spec_render(f, t),
        block_rows(b2) == spec_render(f, t),
    ensures
        block_rows(b1) == block_rows(b2),
{
}

/// Every character a font covers renders to a non-empty cell: its one-character
/// rendering has exactly the font's height in rows, each row at least one
/// column wide.
pub proof fn lemma_char_renders_cell(f: GlyphFont, c: char)
    requires
        f.wf(),
        spec_lookup(f.glyphs@, c) is Some,
    ensures
        spec_render(f, seq![c]).len() == f.height,
        forall|r: int| 0 <= r < f.height ==> (#[trigger] spec_render(f, seq![c])[r]).len() >= 1,
{
    let t = seq![c];
    assert(spec_renderable(f, t)) by {
        assert(forall|k: int| 0 <= k < t.len() ==> t[k] == c);
    }
    assert(spec_render(f, t) == spec_block(f, t));
    lemma_lookup_from_wf(f.glyphs@, c, 0, f.height as nat);
    let g = spec_lookup(f.glyphs@, c)->0;
    assert forall|r: int| 0 <= r < f.height implies (#[trigger] spec_render(f, t)[r]).len()
        >= 1 by {
        assert(t.drop_last().len() == 0);
        assert(spec_row(f, t.drop_last(), r) == Seq::<char>::empty());
        assert(t.last() == c);
        assert(spec_row(f, t, r) == spec_row(f, t.drop_last(), r) + g.rows@[r]@);
        assert(spec_row(f, t, r) =~= g.rows@[r]@);
        assert(g.rows@[r]@.len() == g.spec_width());
    }
}

/// Loads the two embedded fonts: the standard FIGlet font for the time block
/// and the small FIGlet font for the date block, in that order.  Both are
/// fixed build-time payloads that parse and cover the required character
/// set, so loading succeeds; the error arms stay as a defensive report,
/// fatal to the caller, in case a payload were ever replaced by a bad one.
pub fn load_embedded_figlet_fonts() -> (r: Result<(GlyphFont, GlyphFont), String>)
    ensures
        r is Ok,
        r matches Ok(p) ==> p.0.wf() && spec_covers_charset(p.0) && p.1.wf() && spec_covers_charset(
            p.1,
        ),
        r matches Ok(p) ==> exists|ft: figlet_rs::FIGlet|
            is_standard_font(ft) && #[trigger] spec_glyph_font_of(p.0, ft),
        r matches Ok(p) ==> exists|fd: figlet_rs::FIGlet|
            is_small_font(fd) && #[trigger] spec_glyph_font_of(p.1, fd),
{
    let ft = match figlet_standard() {
        Ok(ft) => ft,
        Err(e) => {
            return Err(e);
        },
    };
    let ghost gft = ft;
    let font_time = match build_glyph_font(&ft) {
        Some(g) => g,
        None => {
            return Err(String::from_str("time font lacks a required glyph cell"));
        },
    };
    let fd = match figlet_small() {
        Ok(fd) => fd,
        Err(e) => {
            return Err(e);
        },
    };
    let ghost gfd = fd;
    let font_date = match build_glyph_font(&fd) {
        Some(g) => g,
        None => {
            return Err(String::from_str("date font lacks a required glyph cell"));
        },
    };
    let res: Result<(GlyphFont, GlyphFont), String> = Ok((font_time, font_date));
    proof {
        assert(exists|f: figlet_rs::FIGlet|
            is_standard_font(f) && #[trigger] spec_glyph_font_of(res->Ok_0.0, f)) by {
            assert(spec_glyph_font_of(res->Ok_0.0, gft));
        }
        assert(exists|f: figlet_rs::FIGlet|
            is_small_font(f) && #[trigger] spec_glyph_font_of(res->Ok_0.1, f)) by {
            assert(spec_glyph_font_of(res->Ok_0.1, gfd));
        }
    }
    res
}

} // verus!
