use veyra::chrome::{fit_title, TitleButton};

/// Glyph cells of a strip: how many characters, each 5/7 of its height
/// wide, fit next to each other.
fn cells(avail_px: f32, char_h_px: f32) -> usize {
    let char_w = char_h_px * 5.0 / 7.0;
    let mut n = 0usize;
    while n < 1000 && (n + 1) as f32 * char_w <= avail_px {
        n += 1;
    }
    n
}

#[test]
fn fit_title_passes_short_titles() {
    assert_eq!(fit_title("term", cells(500.0, 20.0)), "term");
}

#[test]
fn fit_title_truncates_with_ellipsis() {
    let t = "a very long window title that will not fit";
    let out = fit_title(t, cells(100.0, 20.0));
    // 100px / (20*5/7) = 7 cells: 5 chars + ".."
    assert!(out.ends_with(".."));
    assert!(out.len() <= 5 + 2);
    assert!(out.starts_with("a ver"));
}

#[test]
fn fit_title_empty_budget() {
    let out = fit_title("title", cells(0.0, 20.0));
    assert_eq!(out, "");
}

#[test]
fn glyph_codes_match_atlas() {
    assert_eq!(TitleButton::Minimize.glyph_code(), 45); // '-'
    assert_eq!(TitleButton::Maximize.glyph_code(), 128); // custom box
    assert_eq!(TitleButton::Close.glyph_code(), 120); // 'x'
}
