use veyra::context_menu::Coordinate;
use veyra::input_router::{
    classify_pointer_target, linux_to_hid, uv_to_pixels, InputSink, InteractionTarget,
    KeyboardEvent, PointerEventKind, RecordingInputSink,
};
use veyra::scene::{Scene, VisualId};

fn c(x: f64) -> Coordinate {
    x.to_bits()
}

/// Pixels of a normalized position: its truncated products with the size.
fn pixels(u: f64, v: f64, width: u32, height: u32) -> (u32, u32) {
    uv_to_pixels(((u * width as f64) as u32, (v * height as f64) as u32), width, height)
}

#[test]
fn linux_to_hid_known() {
    assert_eq!(linux_to_hid(1), 0x29);
    assert_eq!(linux_to_hid(30), 0x04);
    assert_eq!(linux_to_hid(57), 0x2c);
    assert_eq!(linux_to_hid(42), 0xe1);
}

#[test]
fn linux_to_hid_unmapped() {
    assert_eq!(linux_to_hid(999), 0);
}

#[test]
fn linux_to_hid_modifiers() {
    assert_eq!(linux_to_hid(29), 0xe1, "left ctrl");
    assert_eq!(linux_to_hid(42), 0xe1, "left shift");
    assert_eq!(linux_to_hid(56), 0xe2, "left alt");
    assert_eq!(linux_to_hid(54), 0xe5, "right shift");
}

#[test]
fn linux_to_hid_navigation() {
    assert_eq!(linux_to_hid(74), 0x49, "insert");
    assert_eq!(linux_to_hid(75), 0x4a, "home");
    assert_eq!(linux_to_hid(76), 0x4b, "page up");
    assert_eq!(linux_to_hid(77), 0x4c, "delete");
    assert_eq!(linux_to_hid(78), 0x4d, "end");
    assert_eq!(linux_to_hid(79), 0x4e, "page down");
    assert_eq!(linux_to_hid(80), 0x4f, "right arrow");
    assert_eq!(linux_to_hid(81), 0x50, "left arrow");
    assert_eq!(linux_to_hid(82), 0x51, "down arrow");
    assert_eq!(linux_to_hid(83), 0x52, "up arrow");
}

#[test]
fn linux_to_hid_function_keys() {
    for i in 0..12 {
        let hid = linux_to_hid(59 + i);
        assert_eq!(hid, 0x3a + i as u16, "F{}", i + 1);
    }
    assert_eq!(linux_to_hid(104), 0x67, "F13");
    assert_eq!(linux_to_hid(105), 0x68, "F14");
    assert_eq!(linux_to_hid(115), 0x72, "F24");
}

#[test]
fn linux_to_hid_important_keys() {
    assert_eq!(linux_to_hid(1), 0x29, "escape");
    assert_eq!(linux_to_hid(15), 0x2b, "tab");
    assert_eq!(linux_to_hid(28), 0x28, "enter");
    assert_eq!(linux_to_hid(14), 0x2a, "backspace");
    assert_eq!(linux_to_hid(57), 0x2c, "space");
    assert_eq!(linux_to_hid(58), 0x39, "caps lock");
    assert_eq!(linux_to_hid(2), 0x1e, "1");
    assert_eq!(linux_to_hid(11), 0x27, "0");
}

#[test]
fn linux_to_hid_numbers() {
    for i in 0..10 {
        let hid = linux_to_hid(2 + i);
        assert_eq!(hid, 0x1e + i as u16, "key {}", i);
    }
}

#[test]
fn classify_modifier_returns_scene() {
    let scene = Scene::default();
    assert_eq!(classify_pointer_target(&scene, true, false, false), InteractionTarget::Scene);
    assert_eq!(classify_pointer_target(&scene, false, true, false), InteractionTarget::Scene);
    assert_eq!(classify_pointer_target(&scene, false, false, true), InteractionTarget::Scene);
}

#[test]
fn classify_no_selection_returns_scene() {
    let scene = Scene::default();
    assert_eq!(classify_pointer_target(&scene, false, false, false), InteractionTarget::Scene);
}

#[test]
fn a_modifier_keeps_an_event_from_the_selected_content() {
    let mut scene = Scene::default();
    scene.select(Some(VisualId(1)));
    assert_eq!(classify_pointer_target(&scene, true, false, false), InteractionTarget::Scene);
    assert_eq!(linux_to_hid(0), 0);
}

#[test]
fn an_unmodified_event_goes_to_the_selected_content() {
    let mut scene = Scene::default();
    scene.select(Some(VisualId(7)));
    assert_eq!(
        classify_pointer_target(&scene, false, false, false),
        InteractionTarget::Content(VisualId(7))
    );
}

#[test]
fn uv_to_pixel_center() {
    assert_eq!(pixels(0.5, 0.5, 1920, 1080), (960, 540));
}

#[test]
fn uv_to_pixel_edge_clamp() {
    assert_eq!(pixels(1.0, 1.0, 1920, 1080), (1919, 1079));
}

#[test]
fn an_empty_extent_has_only_its_first_pixel() {
    assert_eq!(uv_to_pixels((3, 4), 0, 0), (0, 0));
}

#[test]
fn pixel_differs_after_resize() {
    let (px_sm, py_sm) = pixels(0.5, 0.5, 1920, 1080);
    let (px_bg, py_bg) = pixels(0.5, 0.5, 2560, 1440);
    assert_eq!(px_sm, 960);
    assert_eq!(py_sm, 540);
    assert_eq!(px_bg, 1280);
    assert_eq!(py_bg, 720);
}

#[test]
fn recording_input_sink_records_pointer() {
    let mut sink = RecordingInputSink::new();
    sink.handle_pointer(PointerEventKind::Down, c(0.5), c(0.5));
    sink.handle_pointer(PointerEventKind::Motion, c(0.6), c(0.5));
    sink.handle_pointer(PointerEventKind::Up, c(0.6), c(0.5));
    assert_eq!(sink.pointers.len(), 3);
    assert_eq!(sink.pointers[0], (PointerEventKind::Down, c(0.5), c(0.5)));
    assert_eq!(sink.pointers[1], (PointerEventKind::Motion, c(0.6), c(0.5)));
    assert_eq!(sink.pointers[2], (PointerEventKind::Up, c(0.6), c(0.5)));
}

#[test]
fn recording_input_sink_records_keyboard() {
    let mut sink = RecordingInputSink::new();
    sink.handle_keyboard(KeyboardEvent { key: 0x04, pressed: true });
    sink.handle_keyboard(KeyboardEvent { key: 0x04, pressed: false });
    sink.handle_keyboard(KeyboardEvent { key: 0x05, pressed: true });
    assert_eq!(sink.keys.len(), 3);
    assert_eq!(sink.keys[0], KeyboardEvent { key: 0x04, pressed: true });
    assert_eq!(sink.keys[1], KeyboardEvent { key: 0x04, pressed: false });
    assert_eq!(sink.keys[2], KeyboardEvent { key: 0x05, pressed: true });
}

#[test]
fn recording_input_sink_clear() {
    let mut sink = RecordingInputSink::new();
    sink.handle_keyboard(KeyboardEvent { key: 0x04, pressed: true });
    sink.clear();
    assert!(sink.keys.is_empty());
    assert!(sink.pointers.is_empty());
}

#[test]
fn two_independent_sinks() {
    let mut sink1 = RecordingInputSink::new();
    let mut sink2 = RecordingInputSink::new();

    sink1.handle_pointer(PointerEventKind::Down, c(0.3), c(0.4));
    sink2.handle_pointer(PointerEventKind::Down, c(0.3), c(0.4));
    assert_eq!(sink1.pointers.len(), 1);
    assert_eq!(sink2.pointers.len(), 1);

    sink1.handle_keyboard(KeyboardEvent { key: 0x04, pressed: true });
    assert_eq!(sink1.keys.len(), 1);
    assert_eq!(sink2.keys.len(), 0);

    sink2.handle_keyboard(KeyboardEvent { key: 0x05, pressed: true });
    assert_eq!(sink1.keys.len(), 1);
    assert_eq!(sink2.keys.len(), 1);

    sink2.clear();
    assert_eq!(sink2.keys.len(), 0);
}

#[test]
fn content_uv_from_total_uv() {
    let title_h = 0.06f64;
    let title_frac = title_h / (1.0 + title_h);
    let content_v = (0.5f64 - title_frac) / (1.0 - title_frac);
    assert!((content_v - 0.5).abs() < 0.05, "center of total is center of content");
    assert!(0.01f64 < title_frac, "v=0.01 should be in title bar");
    assert!(0.1f64 > title_frac, "v=0.1 should be in content area");
}

#[test]
fn total_height_includes_decorations() {
    let total_h: f64 = 100.0 * (1.0 + 0.06);
    let total_w: f64 = 200.0;
    assert!((total_h - 106.0f64).abs() < 1e-4);
    assert!((total_w - 200.0f64).abs() < 1e-4);
}

#[test]
fn every_letter_has_a_key_of_its_own() {
    let row: Vec<u16> = (16..=25).map(linux_to_hid).collect();
    assert_eq!(row, vec![0x14, 0x1a, 0x08, 0x15, 0x17, 0x1c, 0x18, 0x0c, 0x12, 0x13]);
    let mut letters: Vec<u16> =
        (1..=57).map(linux_to_hid).filter(|usage| (0x04..=0x1d).contains(usage)).collect();
    letters.sort();
    assert_eq!(letters, (0x04..=0x1d).collect::<Vec<u16>>());
}
