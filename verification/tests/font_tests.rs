use clockdate::font::font_charset;
use clockdate::load_embedded_figlet_fonts;
use clockdate::render_figlet_text;

#[test]
fn embedded_fonts_load() {
    let (font_time, font_date) = load_embedded_figlet_fonts().expect("embedded fonts must load");
    assert!(font_time.height >= 1);
    assert!(font_date.height >= 1);
}

#[test]
fn every_charset_character_has_a_cell_of_font_height() {
    let (font_time, font_date) = load_embedded_figlet_fonts().unwrap();
    for c in font_charset() {
        let g = font_time.cell(c).expect("time font must cover the charset");
        assert_eq!(g.rows.len(), font_time.height);
        assert!(g.rows[0].len() >= 1);
        let g = font_date.cell(c).expect("date font must cover the charset");
        assert_eq!(g.rows.len(), font_date.height);
        assert!(g.rows[0].len() >= 1);
    }
}

#[test]
fn single_character_renders_to_nonempty_block() {
    let (font_time, _) = load_embedded_figlet_fonts().unwrap();
    for c in font_charset() {
        let b = render_figlet_text(&font_time, &c.to_string());
        assert_eq!(b.rows.len(), font_time.height);
        assert!(b.width() >= 1);
        for row in &b.rows {
            assert_eq!(row.len(), b.width());
        }
    }
}

#[test]
fn rendering_is_deterministic() {
    let (font_time, font_date) = load_embedded_figlet_fonts().unwrap();
    let b1 = render_figlet_text(&font_time, "14:05");
    let b2 = render_figlet_text(&font_time, "14:05");
    assert_eq!(b1.rows, b2.rows);
    let d1 = render_figlet_text(&font_date, "03.11.2024");
    let d2 = render_figlet_text(&font_date, "03.11.2024");
    assert_eq!(d1.rows, d2.rows);
}

#[test]
fn block_width_is_the_sum_of_cell_widths() {
    let (font_time, _) = load_embedded_figlet_fonts().unwrap();
    let one = render_figlet_text(&font_time, "1");
    let four = render_figlet_text(&font_time, "4");
    let both = render_figlet_text(&font_time, "14");
    assert_eq!(both.width(), one.width() + four.width());
    for r in 0..both.rows.len() {
        let mut joined = one.rows[r].clone();
        joined.extend(four.rows[r].iter().copied());
        assert_eq!(both.rows[r], joined);
    }
}

#[test]
fn empty_string_renders_the_fallback_label() {
    let (font_time, _) = load_embedded_figlet_fonts().unwrap();
    let empty = render_figlet_text(&font_time, "");
    let err = render_figlet_text(&font_time, "ERR");
    assert_eq!(empty.rows, err.rows);
}

#[test]
fn uncovered_character_renders_the_fallback_label() {
    let (font_time, _) = load_embedded_figlet_fonts().unwrap();
    let odd = render_figlet_text(&font_time, "12h34");
    let err = render_figlet_text(&font_time, "ERR");
    assert_eq!(odd.rows, err.rows);
}

#[test]
fn row_string_matches_row_chars() {
    let (font_time, _) = load_embedded_figlet_fonts().unwrap();
    let b = render_figlet_text(&font_time, "07:45");
    for r in 0..b.rows.len() {
        let s = b.row_string(r);
        let expected: String = b.rows[r].iter().collect();
        assert_eq!(s, expected);
    }
}

#[test]
fn glyph_cells_contain_no_hardblank_placeholder() {
    let (font_time, font_date) = load_embedded_figlet_fonts().unwrap();
    for font in [&font_time, &font_date] {
        for c in font_charset() {
            let g = font.cell(c).unwrap();
            for row in &g.rows {
                assert!(!row.contains(&'$'));
            }
        }
    }
}
