//! The system's keyboard layout, as its settings file names it.
use vstd::prelude::*;

use crate::text::{
    after_prefix, begins_with, first_line, lemma_line_end, lemma_line_end_bounds, line_end, trim,
    trimmed, Margin,
};

verus! {

/// A keyboard layout by its names.
#[derive(Debug)]
pub struct XkbLayout {
    pub model: String,
    pub layout: String,
    pub variant: String,
    pub options: Option<String>,
}

/// A keyboard layout, as a mathematical value.
#[verifier::ext_equal]
pub ghost struct XkbModel {
    pub model: Seq<char>,
    pub layout: Seq<char>,
    pub variant: Seq<char>,
    pub options: Option<Seq<char>>,
}

impl View for XkbLayout {
    type V = XkbModel;

    open spec fn view(&self) -> XkbModel {
        XkbModel {
            model: self.model@,
            layout: self.layout@,
            variant: self.variant@,
            options: match self.options {
                Some(o) => Some(o@),
                None => None,
            },
        }
    }
}

/// The settings read so far; what is not set is empty.
#[derive(Debug)]
struct Settings {
    layout: String,
    variant: String,
    options: String,
    model: String,
}

/// The settings of a file.
#[verifier::ext_equal]
pub ghost struct SettingsModel {
    pub layout: Seq<char>,
    pub variant: Seq<char>,
    pub options: Seq<char>,
    pub model: Seq<char>,
}

impl SettingsModel {
    pub open spec fn empty() -> SettingsModel {
        SettingsModel {
            layout: Seq::empty(),
            variant: Seq::empty(),
            options: Seq::empty(),
            model: Seq::empty(),
        }
    }

    /// After one line of the file.
    pub open spec fn with_line(self, line: Seq<char>) -> SettingsModel {
        let l = trimmed(line, Margin::Blanks);
        if begins_with(l, "XKBLAYOUT="@) {
            SettingsModel { layout: trimmed(l.skip(10), Margin::Quotes), ..self }
        } else if begins_with(l, "XKBVARIANT="@) {
            SettingsModel { variant: trimmed(l.skip(11), Margin::Quotes), ..self }
        } else if begins_with(l, "XKBOPTIONS="@) {
            SettingsModel { options: trimmed(l.skip(11), Margin::Quotes), ..self }
        } else if begins_with(l, "XKBMODEL="@) {
            SettingsModel { model: trimmed(l.skip(9), Margin::Quotes), ..self }
        } else {
            self
        }
    }

    /// After all lines of the text; of two lines that set the same thing,
    /// the later one counts.
    pub open spec fn with_text(self, text: Seq<char>) -> SettingsModel
        decreases text.len(),
        via Self::with_text_ends
    {
        let k = line_end(text);
        if k >= text.len() {
            self.with_line(text)
        } else {
            self.with_line(text.take(k)).with_text(text.skip(k + 1))
        }
    }

    #[via_fn]
    proof fn with_text_ends(self, text: Seq<char>) {
        lemma_line_end_bounds(text);
    }

    /// The layout the settings stand for; without one, the default.
    pub open spec fn named(self) -> XkbModel {
        if self.layout.len() > 0 {
            XkbModel {
                model: self.model,
                layout: self.layout,
                variant: self.variant,
                options: if self.options.len() > 0 {
                    Some(self.options)
                } else {
                    None
                },
            }
        } else {
            unnamed_layout()
        }
    }
}

/// No names: xkb takes those of the environment, and the US layout when
/// that has none either.
pub open spec fn unnamed_layout() -> XkbModel {
    XkbModel {
        model: Seq::empty(),
        layout: Seq::empty(),
        variant: Seq::empty(),
        options: None,
    }
}

impl Settings {
    spec fn model(self) -> SettingsModel {
        SettingsModel {
            layout: self.layout@,
            variant: self.variant@,
            options: self.options@,
            model: self.model@,
        }
    }

    fn read_line(&mut self, line: &str)
        ensures
            final(self).model() == old(self).model().with_line(line@),
    {
        proof {
            reveal_strlit("XKBLAYOUT=");
            reveal_strlit("XKBVARIANT=");
            reveal_strlit("XKBOPTIONS=");
            reveal_strlit("XKBMODEL=");
        }
        let l = trim(line, Margin::Blanks);
        if let Some(v) = after_prefix(l, "XKBLAYOUT=") {
            self.layout = trim(v, Margin::Quotes).to_owned();
        } else if let Some(v) = after_prefix(l, "XKBVARIANT=") {
            self.variant = trim(v, Margin::Quotes).to_owned();
        } else if let Some(v) = after_prefix(l, "XKBOPTIONS=") {
            self.options = trim(v, Margin::Quotes).to_owned();
        } else if let Some(v) = after_prefix(l, "XKBMODEL=") {
            self.model = trim(v, Margin::Quotes).to_owned();
        }
    }
}

fn unnamed() -> (r: XkbLayout)
    ensures
        r@ == unnamed_layout(),
{
    XkbLayout {
        model: String::new(),
        layout: String::new(),
        variant: String::new(),
        options: None,
    }
}

/// The layout that the settings file names. A file that cannot be read,
/// or that names none, leaves the choice to xkb's environment.
pub fn load_system_xkb_config(content: Option<&str>) -> (r: XkbLayout)
    ensures
        r@ == match content {
            Some(text) => SettingsModel::empty().with_text(text@).named(),
            None => unnamed_layout(),
        },
{
    let text = match content {
        Some(text) => text,
        None => return unnamed(),
    };
    let mut settings = Settings {
        layout: String::new(),
        variant: String::new(),
        options: String::new(),
        model: String::new(),
    };
    assert(settings.model() =~= SettingsModel::empty());
    let mut left = text;
    let mut more = true;
    while more
        invariant
            more ==> settings.model().with_text(left@) == SettingsModel::empty().with_text(text@),
            !more ==> settings.model() == SettingsModel::empty().with_text(text@),
        decreases
                left@.len() + if more {
                    1int
                } else {
                    0
                },
    {
        let (line, rest) = first_line(left);
        proof {
            lemma_line_end_bounds(left@);
        }
        assert(line_end(left@) == left@.len() ==> line@ =~= left@);
        settings.read_line(line);
        match rest {
            Some(rest) => {
                left = rest;
            },
            None => {
                more = false;
            },
        }
    }
    if settings.layout.as_str().is_empty() {
        return unnamed();
    }
    XkbLayout {
        model: settings.model,
        layout: settings.layout,
        variant: settings.variant,
        options: if settings.options.as_str().is_empty() {
            None
        } else {
            Some(settings.options)
        },
    }
}

/// Of two lines that set the layout, the later one counts.
pub proof fn law_later_setting_counts(s: SettingsModel, first: Seq<char>, second: Seq<char>)
    requires
        begins_with(trimmed(first, Margin::Blanks), "XKBLAYOUT="@),
        begins_with(trimmed(second, Margin::Blanks), "XKBLAYOUT="@),
    ensures
        s.with_line(first).with_line(second) == s.with_line(second),
{
}

/// A line that sets something sets just that, to what stands behind the
/// sign without its quotes, and a line that sets nothing changes nothing.
pub proof fn law_line_sets_what_it_names(s: SettingsModel, line: Seq<char>, value: Seq<char>)
    ensures
        ({
            let l = trimmed(line, Margin::Blanks);
            let v = trimmed(value, Margin::Quotes);
            let n = s.with_line(line);
            &&& l == "XKBLAYOUT="@ + value ==> n == (SettingsModel { layout: v, ..s })
            &&& l == "XKBVARIANT="@ + value ==> n == (SettingsModel { variant: v, ..s })
            &&& l == "XKBOPTIONS="@ + value ==> n == (SettingsModel { options: v, ..s })
            &&& l == "XKBMODEL="@ + value ==> n == (SettingsModel { model: v, ..s })
            &&& l.len() < 3 || l.take(3) != "XKB"@ ==> n == s
        }),
{
    reveal_strlit("XKB");
    reveal_strlit("XKBLAYOUT=");
    reveal_strlit("XKBVARIANT=");
    reveal_strlit("XKBOPTIONS=");
    reveal_strlit("XKBMODEL=");
    let l = trimmed(line, Margin::Blanks);
    lemma_prefix("XKBLAYOUT="@, value);
    lemma_prefix("XKBVARIANT="@, value);
    lemma_prefix("XKBOPTIONS="@, value);
    lemma_prefix("XKBMODEL="@, value);
    lemma_not_prefix(l, "XKBLAYOUT="@, 3);
    lemma_not_prefix(l, "XKBVARIANT="@, 3);
    lemma_not_prefix(l, "XKBOPTIONS="@, 3);
    assert("XKBLAYOUT="@.take(3) =~= "XKB"@);
    assert("XKBVARIANT="@.take(3) =~= "XKB"@);
    assert("XKBOPTIONS="@.take(3) =~= "XKB"@);
    assert("XKBMODEL="@.take(3) =~= "XKB"@);
    if l.len() < 3 || l.take(3) != "XKB"@ {
        lemma_not_xkb(l, "XKBLAYOUT="@);
        lemma_not_xkb(l, "XKBVARIANT="@);
        lemma_not_xkb(l, "XKBOPTIONS="@);
        lemma_not_xkb(l, "XKBMODEL="@);
    }
}

proof fn lemma_prefix(p: Seq<char>, value: Seq<char>)
    ensures
        begins_with(p + value, p),
        (p + value).skip(p.len() as int) == value,
{
    assert((p + value).take(p.len() as int) =~= p);
    assert((p + value).skip(p.len() as int) =~= value);
}

proof fn lemma_not_prefix(l: Seq<char>, p: Seq<char>, i: int)
    requires
        0 <= i < p.len(),
    ensures
        begins_with(l, p) ==> l.len() > i && l[i] == p[i],
{
    if begins_with(l, p) {
        assert(l.take(p.len() as int)[i] == p[i]);
    }
}

proof fn lemma_not_xkb(l: Seq<char>, p: Seq<char>)
    requires
        l.len() < 3 || l.take(3) != "XKB"@,
        p.len() >= 3,
        p.take(3) == "XKB"@,
    ensures
        !begins_with(l, p),
{
    if begins_with(l, p) {
        assert(l.take(p.len() as int).take(3) =~= l.take(3));
    }
}

/// The lines are read in turn, each up to its line feed.
pub proof fn law_lines_are_read_in_turn(s: SettingsModel, line: Seq<char>, rest: Seq<char>)
    requires
        !line.contains('\n'),
    ensures
        s.with_text(line.push('\n') + rest) == s.with_line(line).with_text(rest),
        s.with_text(line) == s.with_line(line),
{
    let text = line.push('\n') + rest;
    let n = line.len() as int;
    assert forall|j: int| 0 <= j < n implies text[j] != '\n' && line[j] != '\n' by {
        assert(text[j] == line[j]);
        assert(line.contains(line[j]));
    }
    assert(text[n] == '\n');
    lemma_line_end(text, n);
    lemma_line_end(line, n);
    assert(text.take(n) =~= line);
    assert(text.skip(n + 1) =~= rest);
}

/// A layout that is named is used with its model and variant, and with
/// options where there are any; without one nothing is named.
pub proof fn law_named_layout_is_used(s: SettingsModel)
    ensures
        s.layout.len() > 0 ==> {
            &&& s.named().layout == s.layout
            &&& s.named().model == s.model
            &&& s.named().variant == s.variant
            &&& s.options.len() > 0 ==> s.named().options == Some(s.options)
            &&& s.options.len() == 0 ==> s.named().options is None
        },
        s.layout.len() == 0 ==> {
            &&& s.named().layout.len() == 0
            &&& s.named().model.len() == 0
            &&& s.named().variant.len() == 0
            &&& s.named().options is None
        },
{
}

} // verus!
