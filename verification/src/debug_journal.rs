//! The debug journal: one line of JSON for each thing that happened, and
//! a table of the windows after each that matters.
use vstd::prelude::*;

use crate::compositor::focusing::{lemma_window_index_bounds, window_index};
use crate::compositor::mapping_laws::is_home;
use crate::compositor::state::{GlassModel, LookingGlass};
use crate::compositor::terms::{is_row, is_visual, lemma_row};
use crate::scene::{Visual, VisualId, WindowState};
use crate::text::{decimal, decimal_digits};
use crate::workspace::lemma_home_index;

verus! {

/// Characters that JSON takes only escaped, whatever stands around them.
pub open spec fn is_control(c: char) -> bool {
    c <= '\u{1f}'
}

/// The text has no control character; it is part of one line.
pub open spec fn is_plain(s: Seq<char>) -> bool {
    forall|i: int| 0 <= i < s.len() ==> !is_control(#[trigger] s[i])
}

/// The hexadecimal digit of a number below sixteen.
pub open spec fn hex_digit(d: int) -> char {
    "0123456789abcdef"@[d]
}

/// A character as it stands between JSON quotes.
pub open spec fn escaped_char(c: char) -> Seq<char> {
    if c == '\\' {
        seq!['\\', '\\']
    } else if c == '"' {
        seq!['\\', '"']
    } else if is_control(c) {
        "\\u00"@ + seq![hex_digit(c as int / 16), hex_digit(c as int % 16)]
    } else {
        seq![c]
    }
}

/// A text as it stands between JSON quotes.
pub open spec fn escaped(s: Seq<char>) -> Seq<char>
    decreases s.len(),
{
    if s.len() == 0 {
        Seq::empty()
    } else {
        escaped_char(s[0]) + escaped(s.drop_first())
    }
}

/// A text in JSON quotes.
pub open spec fn quoted(s: Seq<char>) -> Seq<char> {
    seq!['"'] + escaped(s) + seq!['"']
}

/// The number a hexadecimal digit stands for, if the character is one.
pub open spec fn hex_value(c: char) -> Option<int> {
    if '0' <= c && c <= '9' {
        Some(c as int - '0' as int)
    } else if 'a' <= c && c <= 'f' {
        Some(c as int - 'a' as int + 10)
    } else {
        None
    }
}

/// How a text between JSON quotes begins: its first character, and how
/// much of the text stands for it. The escapes are those of the quote, of
/// the backslash, and of the numbers below 256.
pub open spec fn first_char(s: Seq<char>) -> Option<(char, int)> {
    if s.len() == 0 || s[0] == '"' || is_control(s[0]) {
        None
    } else if s[0] != '\\' {
        Some((s[0], 1))
    } else if s.len() >= 2 && (s[1] == '\\' || s[1] == '"') {
        Some((s[1], 2))
    } else if s.len() >= 6 && s.take(4) == "\\u00"@ {
        match (hex_value(s[4]), hex_value(s[5])) {
            (Some(h), Some(l)) => Some(((16 * h + l) as char, 6)),
            _ => None,
        }
    } else {
        None
    }
}

/// The text that stands between JSON quotes as `s`, if there is one.
pub open spec fn unescaped(s: Seq<char>) -> Option<Seq<char>>
    decreases s.len(),
{
    if s.len() == 0 {
        Some(Seq::empty())
    } else {
        match first_char(s) {
            Some((c, n)) => if 0 < n <= s.len() {
                match unescaped(s.skip(n)) {
                    Some(rest) => Some(seq![c] + rest),
                    None => None,
                }
            } else {
                None
            },
            None => None,
        }
    }
}

/// Appends a text of one character as it stands between JSON quotes.
fn push_escaped(out: &mut String, piece: &str)
    requires
        piece@.len() == 1,
    ensures
        final(out)@ == old(out)@ + escaped_char(piece@[0]),
{
    proof {
        reveal_strlit("\\\\");
        reveal_strlit("\\\"");
        reveal_strlit("0123456789abcdef");
    }
    let c = piece.get_char(0);
    if c == '\\' {
        out.append("\\\\");
    } else if c == '"' {
        out.append("\\\"");
    } else if c <= '\u{1f}' {
        let code: usize = c as usize;
        let high: usize = code / 16;
        let low: usize = code % 16;
        out.append("\\u00");
        out.append("0123456789abcdef".substring_char(high, high + 1));
        out.append("0123456789abcdef".substring_char(low, low + 1));
    } else {
        out.append(piece);
    }
    assert(out@ =~= old(out)@ + escaped_char(c));
}

/// Quotes a text for JSON.
pub fn s(v: &str) -> (r: String)
    ensures
        r@ == quoted(v@),
{
    proof {
        reveal_strlit("\"");
    }
    let n: usize = v.unicode_len();
    let mut out = "\"".to_owned();
    let mut i: usize = 0;
    assert(v@.skip(0) =~= v@);
    assert(out@ =~= seq!['"']);
    while i < n
        invariant
            i <= n,
            n == v@.len(),
            out@ + escaped(v@.skip(i as int)) == seq!['"'] + escaped(v@),
        decreases n - i,
    {
        let ghost before = out@;
        push_escaped(&mut out, v.substring_char(i, i + 1));
        proof {
            let rest = v@.skip(i as int);
            assert(rest.drop_first() =~= v@.skip(i + 1));
            assert(out@ + escaped(v@.skip(i + 1)) =~= before + escaped(rest));
        }
        i = i + 1;
    }
    assert(escaped(v@.skip(n as int)) =~= Seq::empty());
    assert(out@ =~= seq!['"'] + escaped(v@));
    out.append("\"");
    assert(out@ =~= quoted(v@));
    out
}

proof fn lemma_hex_reads_back(d: int)
    requires
        0 <= d < 16,
    ensures
        hex_value(hex_digit(d)) == Some(d),
        !is_control(hex_digit(d)),
{
    reveal_strlit("0123456789abcdef");
}

proof fn lemma_escape_reads_back(c: char, rest: Seq<char>)
    ensures
        first_char(escaped_char(c) + rest) == Some((c, escaped_char(c).len() as int)),
        (escaped_char(c) + rest).skip(escaped_char(c).len() as int) == rest,
        is_plain(escaped_char(c)),
{
    let e = escaped_char(c);
    let s = e + rest;
    assert(s.skip(e.len() as int) =~= rest);
    if is_control(c) {
        reveal_strlit("\\u00");
        lemma_hex_reads_back(c as int / 16);
        lemma_hex_reads_back(c as int % 16);
        assert(s.take(4) =~= "\\u00"@);
        assert(s[4] == e[4] && s[5] == e[5]);
    }
}

/// A quoted text has no control character, and between its quotes stands
/// a text that reads back as the one that was quoted.
pub proof fn law_quoted_text_reads_back(s: Seq<char>)
    ensures
        is_plain(quoted(s)),
        quoted(s)[0] == '"',
        quoted(s).last() == '"',
        unescaped(quoted(s).drop_first().drop_last()) == Some(s),
{
    lemma_escaped_reads_back(s);
    assert(quoted(s).drop_first().drop_last() =~= escaped(s));
}

proof fn lemma_escaped_reads_back(s: Seq<char>)
    ensures
        is_plain(escaped(s)),
        unescaped(escaped(s)) == Some(s),
    decreases s.len(),
{
    if s.len() > 0 {
        let rest = s.drop_first();
        lemma_escaped_reads_back(rest);
        lemma_escape_reads_back(s[0], escaped(rest));
        assert(seq![s[0]] + rest =~= s);
    }
}

/// Where the journal is written, if anywhere.
#[derive(Debug)]
pub struct Journal {
    pub target: Option<String>,
}

impl Journal {
    /// The journal that the environment asks for; an empty name asks for
    /// none.
    pub fn init(path: Option<String>) -> (r: Self)
        ensures
            match path {
                Some(p) => if p@.len() > 0 {
                    r.target == Some(p)
                } else {
                    r.target is None
                },
                None => r.target is None,
            },
    {
        match path {
            Some(p) => {
                if p.as_str().is_empty() {
                    Journal { target: None }
                } else {
                    Journal { target: Some(p) }
                }
            },
            None => Journal { target: None },
        }
    }

    pub fn enabled(&self) -> (r: bool)
        ensures
            r == (self.target is Some),
    {
        self.target.is_some()
    }
}

/// One field of an event: its name and its value as JSON.
pub open spec fn field_text(f: (String, String)) -> Seq<char> {
    ",\""@ + f.0@ + "\":"@ + f.1@
}

/// The fields in turn.
pub open spec fn fields_text(fields: Seq<(String, String)>) -> Seq<char>
    decreases fields.len(),
{
    if fields.len() == 0 {
        Seq::empty()
    } else {
        fields_text(fields.drop_last()) + field_text(fields.last())
    }
}

/// The line of an event.
pub open spec fn event_text(kind: Seq<char>, fields: Seq<(String, String)>) -> Seq<char> {
    "{\"ev\":\""@ + kind + "\""@ + fields_text(fields) + "}\n"@
}

/// The line of an event; the values are JSON already.
pub fn event(kind: &str, fields: &Vec<(String, String)>) -> (r: String)
    ensures
        r@ == event_text(kind@, fields@),
{
    let mut line = "{\"ev\":\"".to_owned();
    line.append(kind);
    line.append("\"");
    let ghost head = line@;
    let mut i: usize = 0;
    assert(head + fields_text(fields@.take(0)) =~= line@);
    while i < fields.len()
        invariant
            i <= fields@.len(),
            head == "{\"ev\":\""@ + kind@ + "\""@,
            line@ == head + fields_text(fields@.take(i as int)),
        decreases fields@.len() - i,
    {
        let ghost before = line@;
        assert(fields@.take(i + 1).drop_last() =~= fields@.take(i as int));
        assert(fields@.take(i + 1).last() == fields@[i as int]);
        line.append(",\"");
        line.append(fields[i].0.as_str());
        line.append("\":");
        line.append(fields[i].1.as_str());
        assert(line@ =~= before + field_text(fields@[i as int]));
        i = i + 1;
        assert(line@ =~= head + fields_text(fields@.take(i as int)));
    }
    assert(fields@.take(i as int) =~= fields@);
    line.append("}\n");
    line
}

/// One window in a table. Only windows of applications have names.
#[derive(Debug)]
pub struct WindowRow {
    pub vid: VisualId,
    pub app_id: String,
    pub title: String,
    pub workspace: Option<usize>,
    pub focused: bool,
    pub minimized: bool,
    pub maximized: bool,
    pub fullscreen: bool,
}

/// A window's position and size as texts, to one decimal.
#[derive(Debug)]
pub struct RowNumbers {
    pub pos: (String, String, String),
    pub size: (String, String),
}

pub open spec fn truth(b: bool) -> Seq<char> {
    if b {
        "true"@
    } else {
        "false"@
    }
}

/// A number, or `null`.
pub open spec fn number_or_null(n: Option<u64>) -> Seq<char> {
    match n {
        Some(n) => decimal_digits(n),
        None => "null"@,
    }
}

pub open spec fn widened(w: Option<usize>) -> Option<u64> {
    match w {
        Some(w) => Some(w as u64),
        None => None,
    }
}

/// A window as JSON.
#[verifier::opaque]
pub open spec fn row_text(r: WindowRow, n: RowNumbers) -> Seq<char> {
    "{\"vid\":"@ + decimal_digits(r.vid.0) + ",\"app\":"@ + quoted(r.app_id@) + ",\"title\":"@
        + quoted(r.title@) + ",\"ws\":"@ + number_or_null(widened(r.workspace)) + ",\"pos\":["@
        + n.pos.0@ + ","@ + n.pos.1@ + ","@ + n.pos.2@ + "],\"size\":["@ + n.size.0@ + ","@
        + n.size.1@ + "],\"focused\":"@ + truth(r.focused) + ",\"min\":"@ + truth(r.minimized)
        + ",\"max\":"@ + truth(r.maximized) + ",\"fs\":"@ + truth(r.fullscreen) + "}"@
}

fn truth_text(b: bool) -> (r: &'static str)
    ensures
        r@ == truth(b),
{
    if b {
        "true"
    } else {
        "false"
    }
}

fn number_text(n: Option<u64>) -> (r: String)
    ensures
        r@ == number_or_null(n),
{
    match n {
        Some(n) => decimal(n),
        None => "null".to_owned(),
    }
}

fn widen(w: Option<usize>) -> (r: Option<u64>)
    ensures
        r == widened(w),
{
    match w {
        Some(w) => Some(w as u64),
        None => None,
    }
}

/// A window as JSON.
pub fn row_json(r: &WindowRow, n: &RowNumbers) -> (t: String)
    ensures
        t@ == row_text(*r, *n),
{
    proof {
        reveal(row_text);
    }
    let mut t = "{\"vid\":".to_owned();
    t.append(decimal(r.vid.0).as_str());
    t.append(",\"app\":");
    t.append(s(r.app_id.as_str()).as_str());
    t.append(",\"title\":");
    t.append(s(r.title.as_str()).as_str());
    t.append(",\"ws\":");
    t.append(number_text(widen(r.workspace)).as_str());
    t.append(",\"pos\":[");
    t.append(n.pos.0.as_str());
    t.append(",");
    t.append(n.pos.1.as_str());
    t.append(",");
    t.append(n.pos.2.as_str());
    t.append("],\"size\":[");
    t.append(n.size.0.as_str());
    t.append(",");
    t.append(n.size.1.as_str());
    t.append("],\"focused\":");
    t.append(truth_text(r.focused));
    t.append(",\"min\":");
    t.append(truth_text(r.minimized));
    t.append(",\"max\":");
    t.append(truth_text(r.maximized));
    t.append(",\"fs\":");
    t.append(truth_text(r.fullscreen));
    t.append("}");
    t
}

/// The rows with commas between them.
pub open spec fn rows_text(rows: Seq<WindowRow>, numbers: Seq<RowNumbers>, n: int) -> Seq<char>
    decreases n,
{
    if n <= 0 {
        Seq::empty()
    } else if n == 1 {
        row_text(rows[0], numbers[0])
    } else {
        rows_text(rows, numbers, n - 1) + ","@ + row_text(rows[n - 1], numbers[n - 1])
    }
}

/// The line of a table of the windows.
pub open spec fn snapshot_text(
    rows: Seq<WindowRow>,
    numbers: Seq<RowNumbers>,
    focused: Option<VisualId>,
    active_ws: usize,
    camera_z: Seq<char>,
) -> Seq<char> {
    "{\"ev\":\"snapshot\",\"windows\":["@ + rows_text(rows, numbers, rows.len() as int)
        + "],\"focused\":"@ + number_or_null(
        match focused {
            Some(v) => Some(v.0),
            None => None,
        },
    ) + ",\"active_ws\":"@ + decimal_digits(active_ws as u64) + ",\"camera_z\":"@ + camera_z
        + "}\n"@
}

/// The line of a table of the windows.
pub fn snapshot(
    rows: &Vec<WindowRow>,
    numbers: &Vec<RowNumbers>,
    focused: Option<VisualId>,
    active_ws: usize,
    camera_z: &str,
) -> (r: String)
    requires
        rows@.len() == numbers@.len(),
    ensures
        r@ == snapshot_text(rows@, numbers@, focused, active_ws, camera_z@),
{
    let mut line = "{\"ev\":\"snapshot\",\"windows\":[".to_owned();
    let ghost head = line@;
    let mut i: usize = 0;
    assert(head + rows_text(rows@, numbers@, 0) =~= line@);
    while i < rows.len()
        invariant
            i <= rows@.len(),
            rows@.len() == numbers@.len(),
            line@ == head + rows_text(rows@, numbers@, i as int),
        decreases rows@.len() - i,
    {
        let ghost before = line@;
        if i > 0 {
            line.append(",");
        }
        line.append(row_json(&rows[i], &numbers[i]).as_str());
        i = i + 1;
        assert(line@ =~= head + rows_text(rows@, numbers@, i as int));
    }
    line.append("],\"focused\":");
    let f: Option<u64> = match focused {
        Some(v) => Some(v.0),
        None => None,
    };
    line.append(number_text(f).as_str());
    line.append(",\"active_ws\":");
    line.append(decimal(active_ws as u64).as_str());
    line.append(",\"camera_z\":");
    line.append(camera_z);
    line.append("}\n");
    line
}

impl GlassModel {
    /// The row shows the visual as it is.
    pub open spec fn shows(self, r: WindowRow, v: Visual) -> bool {
        let i = window_index(self.toplevels, v.id);
        let known = i < self.toplevels.len();
        &&& r.vid == v.id
        &&& r.app_id@ == if known {
            self.toplevels[i].app_id@
        } else {
            ""@
        }
        &&& r.title@ == if known {
            self.toplevels[i].title@
        } else {
            ""@
        }
        &&& r.workspace == self.workspaces.home(v.id)
        &&& r.focused == (self.scene.focused_id == Some(v.id))
        &&& r.minimized == (v.window_state == WindowState::Minimized)
        &&& r.maximized == (known && self.toplevels[i].maximized)
        &&& r.fullscreen == (known && self.toplevels[i].fullscreened)
    }
}

impl LookingGlass {
    fn window_row(&self, v: Visual) -> (r: WindowRow)
        ensures
            self@.shows(r, v),
    {
        proof {
            lemma_window_index_bounds(self@.toplevels, v.id);
        }
        let focused = match self.scene.focused_id {
            Some(f) => f == v.id,
            None => false,
        };
        let minimized = v.window_state == WindowState::Minimized;
        let workspace = self.workspace_for_visual(v.id);
        match self.window_position(v.id) {
            Some(i) => WindowRow {
                vid: v.id,
                app_id: self.toplevels[i].app_id.clone(),
                title: self.toplevels[i].title.clone(),
                workspace,
                focused,
                minimized,
                maximized: self.toplevels[i].maximized,
                fullscreen: self.toplevels[i].fullscreened,
            },
            None => WindowRow {
                vid: v.id,
                app_id: "".to_owned(),
                title: "".to_owned(),
                workspace,
                focused,
                minimized,
                maximized: false,
                fullscreen: false,
            },
        }
    }

    /// The table of the windows: a row for each visual, in the order of
    /// the scene.
    pub fn debug_snapshot(&self) -> (r: Vec<WindowRow>)
        ensures
            r@.len() == self@.scene.visuals.len(),
            forall|i: int|
                0 <= i < r@.len() ==> self@.shows(#[trigger] r@[i], self@.scene.visuals[i]),
    {
        let mut rows: Vec<WindowRow> = Vec::new();
        let mut i: usize = 0;
        while i < self.scene.visuals.len()
            invariant
                i <= self.scene.visuals@.len(),
                rows@.len() == i,
                forall|j: int|
                    0 <= j < i ==> self@.shows(#[trigger] rows@[j], self@.scene.visuals[j]),
            decreases self.scene.visuals@.len() - i,
        {
            rows.push(self.window_row(self.scene.visuals[i]));
            i = i + 1;
        }
        rows
    }
}

/// An event is one line: of plain parts, such as quoted texts, it makes a
/// text whose only control character is the newline at its end.
pub proof fn law_event_is_one_line(kind: Seq<char>, fields: Seq<(String, String)>)
    requires
        is_plain(kind),
        forall|i: int|
            0 <= i < fields.len() ==> is_plain((#[trigger] fields[i]).0@) && is_plain(
                fields[i].1@,
            ),
    ensures
        event_text(kind, fields).last() == '\n',
        is_plain(event_text(kind, fields).drop_last()),
{
    reveal_strlit("{\"ev\":\"");
    reveal_strlit("\"");
    reveal_strlit("}\n");
    lemma_fields_are_plain(fields);
}

proof fn lemma_fields_are_plain(fields: Seq<(String, String)>)
    requires
        forall|i: int|
            0 <= i < fields.len() ==> is_plain((#[trigger] fields[i]).0@) && is_plain(
                fields[i].1@,
            ),
    ensures
        is_plain(fields_text(fields)),
    decreases fields.len(),
{
    if fields.len() > 0 {
        reveal_strlit(",\"");
        reveal_strlit("\":");
        let rest = fields.drop_last();
        assert forall|i: int| 0 <= i < rest.len() implies is_plain((#[trigger] rest[i]).0@)
            && is_plain(rest[i].1@) by {
            assert(rest[i] == fields[i]);
        }
        lemma_fields_are_plain(rest);
        assert(fields.last() == fields[fields.len() - 1]);
        assert(is_plain(field_text(fields.last())));
    }
}

/// The row of a visual tells its window's application and title, the
/// workspace it is on, and how it is shown; the row of one that is no
/// window tells no application, no title and no such state.
pub proof fn law_row_tells_of_its_window(
    m: GlassModel,
    r: WindowRow,
    vid: VisualId,
    i: int,
    k: int,
    w: int,
)
    requires
        is_visual(m.scene, vid, i),
        m.shows(r, m.scene.visuals[i]),
        m.workspaces.all.len() <= usize::MAX,
    ensures
        r.vid == vid,
        r.focused == (m.scene.focused_id == Some(vid)),
        r.minimized == (m.scene.visuals[i].window_state == WindowState::Minimized),
        is_home(m.workspaces, vid, w) ==> (r.workspace matches Some(h) && h == w),
        is_row(m, vid, k) ==> {
            &&& r.app_id@ == m.toplevels[k].app_id@
            &&& r.title@ == m.toplevels[k].title@
            &&& r.maximized == m.toplevels[k].maximized
            &&& r.fullscreen == m.toplevels[k].fullscreened
        },
{
    if is_row(m, vid, k) {
        lemma_row(m, vid, k);
    }
    if is_home(m.workspaces, vid, w) {
        lemma_home_index(m.workspaces.all, vid, w);
    }
}

} // verus!
