//! Window decoration chrome: the title-bar buttons and title fitting.
use vstd::prelude::*;

verus! {

/// The three title-bar buttons, right-aligned.
#[derive(Debug, Clone, Copy, PartialEq, Eq, Structural)]
pub enum TitleButton {
    Minimize,
    Maximize,
    Close,
}

impl TitleButton {
    /// Atlas code of the glyph: '-', the hollow box the font atlas ends
    /// with, and 'x'.
    pub fn glyph_code(self) -> (r: u32)
        ensures
            r == match self {
                TitleButton::Minimize => 45u32,
                TitleButton::Maximize => 128,
                TitleButton::Close => 120,
            },
    {
        match self {
            TitleButton::Minimize => 45,
            TitleButton::Maximize => 128,
            TitleButton::Close => 120,
        }
    }

    /// Label for log lines.
    pub fn name(self) -> (r: &'static str)
        ensures
            r@ == match self {
                TitleButton::Minimize => "minimize"@,
                TitleButton::Maximize => "maximize"@,
                TitleButton::Close => "close"@,
            },
    {
        match self {
            TitleButton::Minimize => "minimize",
            TitleButton::Maximize => "maximize",
            TitleButton::Close => "close",
        }
    }
}

/// The button of the first zone, right to left, that a hit lies in.
/// Outside the title strip there are no buttons.
pub fn hit_button(in_strip: bool, in_close: bool, in_maximize: bool, in_minimize: bool) -> (r:
    Option<TitleButton>)
    ensures
        r == if !in_strip {
            None
        } else if in_close {
            Some(TitleButton::Close)
        } else if in_maximize {
            Some(TitleButton::Maximize)
        } else if in_minimize {
            Some(TitleButton::Minimize)
        } else {
            None
        },
{
    if !in_strip {
        None
    } else if in_close {
        Some(TitleButton::Close)
    } else if in_maximize {
        Some(TitleButton::Maximize)
    } else if in_minimize {
        Some(TitleButton::Minimize)
    } else {
        None
    }
}

/// A title cut to a number of glyph cells: whole when it fits, else its
/// longest proper beginning with ".." behind it, else nothing.
pub open spec fn fitted(title: Seq<char>, cells: int) -> Seq<char> {
    if title.len() <= cells {
        title
    } else if cells >= 3 {
        title.take(cells - 2) + ".."@
    } else {
        Seq::empty()
    }
}

/// Truncate a window title to the number of glyph cells available, using
/// ".." as the ellipsis.
pub fn fit_title(title: &str, cells: usize) -> (r: String)
    ensures
        r@ == fitted(title@, cells as int),
{
    let n: usize = title.unicode_len();
    if n <= cells {
        return title.to_owned();
    }
    if cells >= 3 {
        let mut out = title.substring_char(0, cells - 2).to_owned();
        out.append("..");
        return out;
    }
    String::new()
}

/// A fitted title never takes more cells than there are.
pub proof fn law_fitted_title_fits(title: Seq<char>, cells: nat)
    ensures
        fitted(title, cells as int).len() <= cells,
{
    reveal_strlit("..");
}

/// Of a title that does not fit, as many characters are kept as leave
/// room for the ellipsis.
pub proof fn law_fitted_title_keeps_a_prefix(title: Seq<char>, cells: nat, i: int)
    requires
        title.len() > cells,
        cells >= 3,
        0 <= i < cells - 2,
    ensures
        fitted(title, cells as int)[i] == title[i],
        fitted(title, cells as int).len() == cells,
        fitted(title, cells as int)[cells - 2] == '.',
        fitted(title, cells as int)[cells - 1] == '.',
{
    reveal_strlit("..");
}

} // verus!
