//! The tick pipeline and its cadence.
//!
//! Each tick samples the wall clock, renders the time and date texts through
//! their fonts, and keeps the two blocks as the latest render state; a frame
//! plan places them on the canvas with their resolved colors.  The cadence
//! functions decide, from elapsed milliseconds alone, whether a tick is due
//! and how long the host may wait, so that the wait and the fixed period
//! share one budget.

use vstd::prelude::*;
use crate::clock::{
    date_text, dec_digits, digit_char, sample_local_clock, spec_date_chars, spec_time_chars,
    time_text, two_digits, year_digits, ClockSample,
};
use crate::color::{parse_color, spec_resolve, Rgb};
use crate::config::Config;
use crate::font::{block_rows, render_figlet_text, spec_block, spec_charset, spec_covers_charset,
    spec_lookup, spec_render, spec_renderable, GlyphBlock, GlyphFont};
use crate::layout::layout;

verus! {

/// The milliseconds between ticks.
pub const TICK_INTERVAL_MS: u64 = 250;

/// The most recently rendered pair of blocks, shared with the redraw path.
pub struct RenderState {
    pub time_block: GlyphBlock,
    pub date_block: GlyphBlock,
}

impl RenderState {
    /// Both blocks are rectangular.
    pub open spec fn wf(&self) -> bool {
        &&& self.time_block.wf()
        &&& self.date_block.wf()
    }
}

/// `rs` is exactly what rendering sample `s` through the two fonts yields.
pub open spec fn spec_state_for(
    rs: RenderState,
    font_time: GlyphFont,
    font_date: GlyphFont,
    s: ClockSample,
) -> bool {
    &&& s.wf()
    &&& block_rows(rs.time_block) == spec_render(
        font_time,
        spec_time_chars(s.hour as int, s.minute as int),
    )
    &&& block_rows(rs.date_block) == spec_render(
        font_date,
        spec_date_chars(s.day as int, s.month as int, s.year as int),
    )
}

/// Renders one clock sample: the time as `HH:MM` through the time font and
/// the date as `DD.MM.YYYY` through the date font.
pub fn render_state_for(
    font_time: &GlyphFont,
    font_date: &GlyphFont,
    s: &ClockSample,
) -> (rs: RenderState)
    requires
        font_time.wf(),
        spec_covers_charset(*font_time),
        font_date.wf(),
        spec_covers_charset(*font_date),
        s.wf(),
    ensures
        spec_state_for(rs, *font_time, *font_date, *s),
        rs.wf(),
{
    let time_str = time_text(s.hour, s.minute);
    let date_str = date_text(s.day, s.month, s.year);
    let time_block = render_figlet_text(font_time, time_str.as_str());
    let date_block = render_figlet_text(font_date, date_str.as_str());
    RenderState { time_block, date_block }
}

/// One tick's render work: samples the local wall clock and renders it.
/// Whatever the clock returns, the blocks are exactly the rendering of that
/// sample.
pub fn tick_render(font_time: &GlyphFont, font_date: &GlyphFont) -> (rs: RenderState)
    requires
        font_time.wf(),
        spec_covers_charset(*font_time),
        font_date.wf(),
        spec_covers_charset(*font_date),
    ensures
        exists|s: ClockSample| spec_state_for(rs, *font_time, *font_date, s),
        rs.wf(),
{
    let s = sample_local_clock();
    let ghost gs = s;
    let rs = render_state_for(font_time, font_date, &s);
    assert(exists|s2: ClockSample| spec_state_for(rs, *font_time, *font_date, s2)) by {
        assert(spec_state_for(rs, *font_time, *font_date, gs));
    }
    rs
}

/// A frame plan: where each block goes and in which color, as handed to the
/// presentation adapter together with the blocks themselves.
pub struct FramePlan {
    pub time_x: i128,
    pub time_y: i128,
    pub date_x: i128,
    pub date_y: i128,
    pub time_color: Rgb,
    pub date_color: Rgb,
}

/// Places the latest render state on the configured canvas: both blocks
/// centered on the canvas width, the date block below the time block by the
/// configured vertical offset, each painted with its resolved color token.
pub fn layout_plan(rs: &RenderState, cfg: &Config) -> (p: FramePlan)
    requires
        rs.wf(),
    ensures
        p.time_x == (cfg.window.width - rs.time_block.spec_width()) / 2,
        p.time_y == 0,
        p.date_x == (cfg.window.width - rs.date_block.spec_width()) / 2,
        p.date_y == rs.time_block.rows@.len() + cfg.window.date_offset,
        p.time_color == spec_resolve(cfg.colors.time@),
        p.date_color == spec_resolve(cfg.colors.date@),
{
    let placed = layout(
        rs.time_block.width(),
        rs.time_block.height(),
        rs.date_block.width(),
        cfg.window.width,
        cfg.window.date_offset,
    );
    FramePlan {
        time_x: placed.time_x,
        time_y: placed.time_y,
        date_x: placed.date_x,
        date_y: placed.date_y,
        time_color: parse_color(cfg.colors.time.as_str()),
        date_color: parse_color(cfg.colors.date.as_str()),
    }
}

/// A tick is due once a full interval has elapsed.
pub open spec fn spec_tick_due(elapsed_ms: int) -> bool {
    elapsed_ms >= TICK_INTERVAL_MS
}

/// How long the host may still wait: the rest of the interval, zero once
/// the tick is due.
pub open spec fn spec_tick_timeout(elapsed_ms: int) -> int {
    if elapsed_ms >= TICK_INTERVAL_MS {
        0
    } else {
        TICK_INTERVAL_MS - elapsed_ms
    }
}

/// Whether a tick is due after `elapsed_ms` milliseconds.
pub fn tick_due(elapsed_ms: u64) -> (b: bool)
    ensures
        b == spec_tick_due(elapsed_ms as int),
{
    elapsed_ms >= TICK_INTERVAL_MS
}

/// The wait budget left before the next tick.
pub fn tick_timeout(elapsed_ms: u64) -> (t: u64)
    ensures
        t == spec_tick_timeout(elapsed_ms as int),
{
    if elapsed_ms >= TICK_INTERVAL_MS {
        0
    } else {
        TICK_INTERVAL_MS - elapsed_ms
    }
}

/// One scheduler step: the elapsed-time origin advances only once a full
/// interval has passed, and reports whether this step fires a tick.
pub fn tick_step(last_origin_ms: u64, now_ms: u64) -> (r: (u64, bool))
    requires
        last_origin_ms <= now_ms,
    ensures
        r.1 == spec_tick_due(now_ms - last_origin_ms),
        r.0 == if r.1 {
            now_ms
        } else {
            last_origin_ms
        },
{
    if tick_due(now_ms - last_origin_ms) {
        (now_ms, true)
    } else {
        (last_origin_ms, false)
    }
}

/// A font covering the charset covers every decimal digit character.
proof fn lemma_digit_covered(f: GlyphFont, d: int)
    requires
        spec_covers_charset(f),
        0 <= d < 10,
    ensures
        spec_lookup(f.glyphs@, digit_char(d)) is Some,
{
    assert(spec_charset()[d] == digit_char(d)) by {
        if d == 0 {
            assert(spec_charset()[0] == '0');
        } else if d == 1 {
            assert(spec_charset()[1] == '1');
        } else if d == 2 {
            assert(spec_charset()[2] == '2');
        } else if d == 3 {
            assert(spec_charset()[3] == '3');
        } else if d == 4 {
            assert(spec_charset()[4] == '4');
        } else if d == 5 {
            assert(spec_charset()[5] == '5');
        } else if d == 6 {
            assert(spec_charset()[6] == '6');
        } else if d == 7 {
            assert(spec_charset()[7] == '7');
        } else if d == 8 {
            assert(spec_charset()[8] == '8');
        } else {
            assert(spec_charset()[9] == '9');
        }
    }
    assert(spec_lookup(f.glyphs@, spec_charset()[d]) is Some);
}

/// Coverage is preserved by concatenation.
proof fn lemma_renderable_concat(f: GlyphFont, a: Seq<char>, b: Seq<char>)
    requires
        spec_renderable(f, a),
        spec_renderable(f, b),
    ensures
        spec_renderable(f, a + b),
{
    assert forall|k: int| 0 <= k < (a + b).len() implies spec_lookup(
        f.glyphs@,
        #[trigger] (a + b)[k],
    ) is Some by {
        if k < a.len() {
            assert((a + b)[k] == a[k]);
        } else {
            assert((a + b)[k] == b[k - a.len()]);
        }
    }
}

/// Both digits of a two-digit number are covered.
proof fn lemma_two_digits_renderable(f: GlyphFont, n: int)
    requires
        spec_covers_charset(f),
        0 <= n < 100,
    ensures
        spec_renderable(f, two_digits(n)),
{
    lemma_digit_covered(f, n / 10);
    lemma_digit_covered(f, n % 10);
    assert(two_digits(n)[0] == digit_char(n / 10));
    assert(two_digits(n)[1] == digit_char(n % 10));
    assert forall|k: int| 0 <= k < two_digits(n).len() implies spec_lookup(
        f.glyphs@,
        #[trigger] two_digits(n)[k],
    ) is Some by {
        if k == 0 {
        } else {
            assert(k == 1);
        }
    }
}

/// Every plain decimal digit sequence is covered.
proof fn lemma_dec_digits_renderable(f: GlyphFont, n: int)
    requires
        spec_covers_charset(f),
        n >= 0,
    ensures
        spec_renderable(f, dec_digits(n)),
    decreases n,
{
    if n < 10 {
        lemma_digit_covered(f, n);
        assert(dec_digits(n)[0] == digit_char(n));
    } else {
        lemma_dec_digits_renderable(f, n / 10);
        lemma_digit_covered(f, n % 10);
        let a = dec_digits(n / 10);
        assert(dec_digits(n) == a.push(digit_char(n % 10)));
        assert forall|k: int| 0 <= k < dec_digits(n).len() implies spec_lookup(
            f.glyphs@,
            #[trigger] dec_digits(n)[k],
        ) is Some by {
            if k < a.len() {
                assert(dec_digits(n)[k] == a[k]);
            } else {
                assert(dec_digits(n)[k] == digit_char(n % 10));
            }
        }
    }
}

/// The year text is covered: digits, zero padding and the minus sign all
/// have cells.
proof fn lemma_year_digits_renderable(f: GlyphFont, y: int)
    requires
        spec_covers_charset(f),
    ensures
        spec_renderable(f, year_digits(y)),
{
    let m = if y < 0 {
        -y
    } else {
        y
    };
    lemma_dec_digits_renderable(f, m);
    lemma_digit_covered(f, 0);
    assert(spec_renderable(f, seq!['0'])) by {
        assert(seq!['0'][0] == digit_char(0));
    }
    let zero = seq!['0'];
    lemma_renderable_concat(f, zero, zero);
    lemma_renderable_concat(f, zero + zero, zero);
    let body = if m < 10 {
        seq!['0', '0', '0'] + dec_digits(m)
    } else if m < 100 {
        seq!['0', '0'] + dec_digits(m)
    } else if m < 1000 {
        seq!['0'] + dec_digits(m)
    } else {
        dec_digits(m)
    };
    assert(spec_renderable(f, body)) by {
        if m < 10 {
            assert(seq!['0', '0', '0'] =~= zero + zero + zero);
            lemma_renderable_concat(f, zero + zero + zero, dec_digits(m));
        } else if m < 100 {
            assert(seq!['0', '0'] =~= zero + zero);
            lemma_renderable_concat(f, zero + zero, dec_digits(m));
        } else if m < 1000 {
            lemma_renderable_concat(f, zero, dec_digits(m));
        }
    }
    if y < 0 {
        assert(spec_renderable(f, seq!['-'])) by {
            assert(spec_charset()[12] == '-');
            assert(seq!['-'][0] == spec_charset()[12]);
        }
        lemma_renderable_concat(f, seq!['-'], body);
        assert(year_digits(y) == seq!['-'] + body);
    } else {
        assert(year_digits(y) == body);
    }
}

/// A well-formed clock sample never renders the fallback label: its time and
/// date texts are non-empty and fully covered by any font that covers the
/// charset, so each renders to its own glyph block.
pub proof fn lemma_sample_never_falls_back(font_time: GlyphFont, font_date: GlyphFont, s: ClockSample)
    requires
        spec_covers_charset(font_time),
        spec_covers_charset(font_date),
        s.wf(),
    ensures
        spec_render(font_time, spec_time_chars(s.hour as int, s.minute as int)) == spec_block(
            font_time,
            spec_time_chars(s.hour as int, s.minute as int),
        ),
        spec_render(font_date, spec_date_chars(s.day as int, s.month as int, s.year as int))
            == spec_block(
            font_date,
            spec_date_chars(s.day as int, s.month as int, s.year as int),
        ),
{
    let colon = seq![':'];
    assert(spec_renderable(font_time, colon)) by {
        assert(spec_charset()[10] == ':');
        assert(colon[0] == spec_charset()[10]);
    }
    lemma_two_digits_renderable(font_time, s.hour as int);
    lemma_two_digits_renderable(font_time, s.minute as int);
    lemma_renderable_concat(font_time, two_digits(s.hour as int), colon);
    lemma_renderable_concat(font_time, two_digits(s.hour as int) + colon, two_digits(
        s.minute as int,
    ));
    assert(spec_time_chars(s.hour as int, s.minute as int).len() > 0);

    let dot = seq!['.'];
    assert(spec_renderable(font_date, dot)) by {
        assert(spec_charset()[11] == '.');
        assert(dot[0] == spec_charset()[11]);
    }
    lemma_two_digits_renderable(font_date, s.day as int);
    lemma_two_digits_renderable(font_date, s.month as int);
    lemma_year_digits_renderable(font_date, s.year as int);
    let a = two_digits(s.day as int);
    let b = two_digits(s.month as int);
    let y = year_digits(s.year as int);
    lemma_renderable_concat(font_date, a, dot);
    lemma_renderable_concat(font_date, a + dot, b);
    lemma_renderable_concat(font_date, a + dot + b, dot);
    lemma_renderable_concat(font_date, a + dot + b + dot, y);
    assert(spec_date_chars(s.day as int, s.month as int, s.year as int).len() > 0);
}

/// Whether a pressed key ends the run: only `q` does.
pub fn quit_requested(key: char) -> (b: bool)
    ensures
        b == (key == 'q'),
{
    key == 'q'
}

/// Tick cadence: the wait budget never exceeds one interval, waiting it out
/// from a not-yet-due point lands exactly on the interval boundary, and a
/// tick is always due after it.  With no slow render, successive ticks are
/// therefore one interval apart, up to the host's waiting tolerance.
pub proof fn lemma_tick_cadence(elapsed_ms: int)
    requires
        elapsed_ms >= 0,
    ensures
        0 <= spec_tick_timeout(elapsed_ms) <= TICK_INTERVAL_MS,
        spec_tick_due(elapsed_ms + spec_tick_timeout(elapsed_ms)),
        !spec_tick_due(elapsed_ms) ==> elapsed_ms + spec_tick_timeout(elapsed_ms)
            == TICK_INTERVAL_MS,
{
}

} // verus!
