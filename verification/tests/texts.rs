use veyra::compositor::xkb::load_system_xkb_config;
use veyra::debug_journal::{event, row_json, s, snapshot, Journal, RowNumbers, WindowRow};
use veyra::scene::VisualId;
use veyra::text::{after_prefix, decimal, first_line, parse_count, trim, Margin};
use veyra::workspace::LayoutMode;

#[test]
fn margins_are_cut_on_both_sides() {
    assert_eq!(trim("  a b\t\n", Margin::Blanks), "a b");
    assert_eq!(trim("\u{a0}\u{2003}x\u{3000}", Margin::Blanks), "x");
    assert_eq!(trim("   ", Margin::Blanks), "");
    assert_eq!(trim("\"\"us\"", Margin::Quotes), "us");
    assert_eq!(trim(" \"us\" ", Margin::Quotes), " \"us\" ");
}

#[test]
fn blanks_are_those_of_the_standard_library() {
    for code in 0..0x3100u32 {
        if let Some(c) = char::from_u32(code) {
            let t = format!("{c}x{c}");
            assert_eq!(trim(&t, Margin::Blanks), t.trim(), "U+{code:04X}");
        }
    }
}

#[test]
fn prefixes_and_lines() {
    assert_eq!(after_prefix("grid:4", "grid:"), Some("4"));
    assert_eq!(after_prefix("gri", "grid:"), None);
    assert_eq!(after_prefix("rid:4x", "grid:"), None);
    assert_eq!(first_line("a\nb\nc"), ("a", Some("b\nc")));
    assert_eq!(first_line("a"), ("a", None));
    assert_eq!(first_line("\n"), ("", Some("")));
}

#[test]
fn numbers_are_read_back_from_their_digits() {
    for n in [0u64, 9, 10, 99, 1234567890, u64::MAX] {
        assert_eq!(decimal(n), format!("{n}"));
        assert_eq!(parse_count(&decimal(n)), Some(n));
    }
    assert_eq!(parse_count("+7"), Some(7));
    assert_eq!(parse_count("+"), None);
    assert_eq!(parse_count(""), None);
    assert_eq!(parse_count("-1"), None);
    assert_eq!(parse_count("18446744073709551616"), None);
}

#[test]
fn layout_modes_are_read_back_from_their_names() {
    for m in [LayoutMode::Freeform, LayoutMode::Flat, LayoutMode::Grid { columns: 12 }] {
        assert_eq!(LayoutMode::from_name(&m.name(), LayoutMode::Grid { columns: 2 }), m);
    }
    assert_eq!(LayoutMode::Grid { columns: 4 }.name(), "grid:4");
    let other = LayoutMode::Flat;
    assert_eq!(LayoutMode::from_name("grid:x", other), LayoutMode::Grid { columns: 3 });
    assert_eq!(LayoutMode::from_name("spiral", other), other);
}

#[test]
fn the_keyboard_layout_is_read_from_its_file() {
    let text = "# keyboard\r\nXKBMODEL=\"pc105\"\n  XKBLAYOUT=\"de\"\nXKBVARIANT=\"\"\n\
                XKBOPTIONS=\"ctrl:nocaps\"\nXKBLAYOUT=\"cz\"";
    let l = load_system_xkb_config(Some(text));
    assert_eq!(l.layout, "cz");
    assert_eq!(l.model, "pc105");
    assert_eq!(l.variant, "");
    assert_eq!(l.options, Some("ctrl:nocaps".to_string()));
}

#[test]
fn without_a_layout_the_environment_decides() {
    for content in [None, Some(""), Some("XKBMODEL=\"pc105\"\nXKBLAYOUT=\"\"\n")] {
        let l = load_system_xkb_config(content);
        assert_eq!(l.layout, "");
        assert_eq!(l.model, "");
        assert_eq!(l.options, None);
    }
    let l = load_system_xkb_config(Some("XKBLAYOUT=fr"));
    assert_eq!((l.layout.as_str(), l.options), ("fr", None));
}

#[test]
fn journal_texts_are_quoted() {
    assert_eq!(s("plain"), "\"plain\"");
    assert_eq!(s("a\"b\\c"), "\"a\\\"b\\\\c\"");
    assert_eq!(s(""), "\"\"");
}

#[test]
fn journal_events_are_lines_of_json() {
    assert_eq!(event("close", &vec![]), "{\"ev\":\"close\"}\n");
    let fields = vec![("vid".to_string(), "3".to_string()), ("app".to_string(), s("x"))];
    assert_eq!(event("open", &fields), "{\"ev\":\"open\",\"vid\":3,\"app\":\"x\"}\n");
}

fn numbers() -> RowNumbers {
    RowNumbers {
        pos: ("1.0".into(), "2.0".into(), "-3.5".into()),
        size: ("640.0".into(), "480.0".into()),
    }
}

fn row(vid: u64, workspace: Option<usize>) -> WindowRow {
    WindowRow {
        vid: VisualId(vid),
        app_id: "foot".into(),
        title: "t".into(),
        workspace,
        focused: true,
        minimized: false,
        maximized: true,
        fullscreen: false,
    }
}

#[test]
fn journal_rows_list_a_window() {
    assert_eq!(
        row_json(&row(7, Some(1)), &numbers()),
        "{\"vid\":7,\"app\":\"foot\",\"title\":\"t\",\"ws\":1,\"pos\":[1.0,2.0,-3.5],\
         \"size\":[640.0,480.0],\"focused\":true,\"min\":false,\"max\":true,\"fs\":false}"
    );
}

#[test]
fn journal_snapshots_list_all_windows() {
    let rows = vec![row(7, None), row(8, Some(0))];
    let line = snapshot(&rows, &vec![numbers(), numbers()], Some(VisualId(8)), 2, "800.0");
    let expected = format!(
        "{{\"ev\":\"snapshot\",\"windows\":[{},{}],\"focused\":8,\"active_ws\":2,\
         \"camera_z\":800.0}}\n",
        row_json(&rows[0], &numbers()),
        row_json(&rows[1], &numbers())
    );
    assert_eq!(line, expected);
    assert!(line.contains("\"ws\":null"));
    let empty = snapshot(&vec![], &vec![], None, 0, "1.0");
    assert_eq!(
        empty,
        "{\"ev\":\"snapshot\",\"windows\":[],\"focused\":null,\"active_ws\":0,\"camera_z\":1.0}\n"
    );
}

#[test]
fn a_journal_needs_a_name() {
    assert!(Journal::init(Some("/tmp/j".into())).enabled());
    assert!(!Journal::init(Some(String::new())).enabled());
    assert!(!Journal::init(None).enabled());
}

#[test]
fn journal_texts_stay_on_their_line() {
    assert_eq!(s("a\nb"), "\"a\\u000ab\"");
    assert_eq!(s("\t\r\u{1f}\u{0}"), "\"\\u0009\\u000d\\u001f\\u0000\"");
    assert_eq!(s("\u{7f}\u{e9}\u{1f600}"), "\"\u{7f}\u{e9}\u{1f600}\"");
    let fields = vec![("title".to_string(), s("one\ntwo"))];
    let line = event("open", &fields);
    assert_eq!(line.find('\n'), Some(line.len() - 1));
}
