use toml::{Table, Value};
use veyra::config::{
    config_path, AppearanceConfig, CameraConfig, Config, ConfigFile, InputConfig, LayoutConfig,
    ShortcutConfig, WorkspaceConfig,
};

fn f(bits: u32) -> f32 {
    f32::from_bits(bits)
}

fn scalar(t: &Table, key: &str, or: u32) -> u32 {
    match t.get(key) {
        Some(Value::Float(x)) => (*x as f32).to_bits(),
        Some(Value::Integer(x)) => (*x as f32).to_bits(),
        _ => or,
    }
}

fn text(t: &Table, key: &str, or: String) -> String {
    match t.get(key) {
        Some(Value::String(s)) => s.clone(),
        _ => or,
    }
}

fn whole(t: &Table, key: &str, or: u64) -> u64 {
    match t.get(key) {
        Some(Value::Integer(x)) => *x as u64,
        _ => or,
    }
}

fn section<'a>(t: &'a Table, key: &str) -> Option<&'a Table> {
    match t.get(key) {
        Some(Value::Table(s)) => Some(s),
        _ => None,
    }
}

fn input(t: &Table) -> InputConfig {
    let d = InputConfig::default();
    InputConfig {
        focus_key: text(t, "focus_key", d.focus_key),
        overview_key: text(t, "overview_key", d.overview_key),
        sensitivity: scalar(t, "sensitivity", d.sensitivity),
        scroll_speed: scalar(t, "scroll_speed", d.scroll_speed),
    }
}

fn camera(t: &Table) -> CameraConfig {
    let d = CameraConfig::default();
    CameraConfig {
        focus_distance: scalar(t, "focus_distance", d.focus_distance),
        transition_ms: whole(t, "transition_ms", d.transition_ms),
        default_yaw: scalar(t, "default_yaw", d.default_yaw),
        default_pitch: scalar(t, "default_pitch", d.default_pitch),
        default_distance: scalar(t, "default_distance", d.default_distance),
    }
}

fn workspace(t: &Table) -> WorkspaceConfig {
    let d = WorkspaceConfig::default();
    WorkspaceConfig {
        count: whole(t, "count", d.count as u64) as usize,
        default_layout: text(t, "default_layout", d.default_layout),
    }
}

fn layout(t: &Table) -> LayoutConfig {
    let d = LayoutConfig::default();
    LayoutConfig {
        spacing: scalar(t, "spacing", d.spacing),
        margin: scalar(t, "margin", d.margin),
    }
}

fn file(content: &str) -> Option<ConfigFile> {
    let t: Table = content.parse::<Table>().ok()?;
    Some(ConfigFile {
        input: section(&t, "input").map(input),
        camera: section(&t, "camera").map(camera),
        workspace: section(&t, "workspace").map(workspace),
        layout: section(&t, "layout").map(layout),
        appearance: None,
        shortcuts: None,
        version: None,
    })
}

fn with_config(content: &str) -> Config {
    Config::load(file(content))
}

fn nothing() -> ConfigFile {
    ConfigFile {
        input: None,
        camera: None,
        workspace: None,
        layout: None,
        appearance: None,
        shortcuts: None,
        version: None,
    }
}

#[test]
fn default_config_has_sensible_values() {
    let config = Config::default();
    assert_eq!(config.workspace.count, 3);
    assert_eq!(f(config.input.sensitivity), 1.0);
    assert_eq!(f(config.camera.default_distance), 800.0);
    assert_eq!(f(config.layout.spacing), 40.0);
    assert_eq!(config.appearance.background_color.map(f), [0.15, 0.15, 0.15]);
    assert_eq!(config.version, 1);
}

#[test]
fn override_single_value_via_toml() {
    let toml = r#"
[workspace]
count = 5
"#;
    let config = with_config(toml);
    assert_eq!(config.workspace.count, 5);
    assert_eq!(f(config.camera.default_distance), 800.0);
    assert_eq!(f(config.input.sensitivity), 1.0);
}

#[test]
fn partial_config_missing_sections_use_defaults() {
    let toml = r#"
[input]
sensitivity = 2.0
"#;
    let config = with_config(toml);
    assert_eq!(f(config.input.sensitivity), 2.0);
    assert_eq!(config.workspace.count, 3);
    assert_eq!(f(config.camera.focus_distance), 500.0);
}

#[test]
fn invalid_toml_uses_defaults() {
    let config = with_config("not valid toml {{{");
    assert_eq!(config.workspace.count, 3);
}

#[test]
fn workspace_count_zero_clamped_to_one() {
    let config = with_config("[workspace]\ncount = 0\n");
    assert_eq!(config.workspace.count, 1);
}

#[test]
fn negative_spacing_clamped_to_zero() {
    let config = with_config("[layout]\nspacing = -10.0\n");
    assert_eq!(f(config.layout.spacing), 0.0);
}

#[test]
fn unknown_fields_ignored() {
    let toml = r#"
[input]
sensitivity = 1.5
unknown_field = "ignored"

[extra_section]
foo = "bar"
"#;
    let config = with_config(toml);
    assert!((f(config.input.sensitivity) - 1.5).abs() < 0.001);
    assert_eq!(config.workspace.count, 3);
}

#[test]
fn toml_parse_workspace_override_direct() {
    let toml = "[workspace]\ncount = 5\n";
    let cf = file(toml).unwrap();
    assert!(cf.workspace.is_some());
    assert_eq!(cf.workspace.unwrap().count, 5);
}

#[test]
fn missing_config_file_uses_defaults() {
    let config = Config::load(None);
    assert_eq!(config.workspace.count, 3);
}

#[test]
fn every_value_out_of_range_is_put_back() {
    let config = Config::load(Some(ConfigFile {
        input: Some(InputConfig { sensitivity: (-0.0f32).to_bits(), ..InputConfig::default() }),
        camera: Some(CameraConfig { transition_ms: 5001, ..CameraConfig::default() }),
        layout: Some(LayoutConfig {
            spacing: f32::NEG_INFINITY.to_bits(),
            margin: (-1.0f32).to_bits(),
        }),
        ..nothing()
    }));
    assert_eq!(f(config.input.sensitivity), 0.1);
    assert_eq!(config.camera.transition_ms, 5000);
    assert_eq!(f(config.layout.spacing), 0.0);
    assert_eq!(f(config.layout.margin), 0.0);
}

#[test]
fn values_at_the_edge_of_their_range_are_kept() {
    let config = Config::load(Some(ConfigFile {
        input: Some(InputConfig {
            sensitivity: f32::MIN_POSITIVE.to_bits(),
            ..InputConfig::default()
        }),
        camera: Some(CameraConfig { transition_ms: 5000, ..CameraConfig::default() }),
        layout: Some(LayoutConfig { spacing: (-0.0f32).to_bits(), margin: f32::NAN.to_bits() }),
        ..nothing()
    }));
    assert_eq!(f(config.input.sensitivity), f32::MIN_POSITIVE);
    assert_eq!(config.camera.transition_ms, 5000);
    assert_eq!(config.layout.spacing, (-0.0f32).to_bits());
    assert!(f(config.layout.margin).is_nan());
}

#[test]
fn validation_settles_at_once() {
    let mut config = Config::default();
    config.workspace.count = 0;
    config.input.sensitivity = 0;
    config.validate();
    let (count, sensitivity) = (config.workspace.count, config.input.sensitivity);
    config.validate();
    assert_eq!((count, sensitivity), (config.workspace.count, config.input.sensitivity));
}

#[test]
fn sections_of_the_file_replace_the_defaults() {
    let mut config = Config::default();
    config.apply_overrides(ConfigFile {
        appearance: Some(AppearanceConfig { background_color: [1, 2, 3] }),
        shortcuts: Some(ShortcutConfig {
            alt_tab: "a".into(),
            launcher: "b".into(),
            toggle_shelf: "c".into(),
            send_to_shelf: "d".into(),
            reset_camera: "e".into(),
        }),
        version: Some(9),
        ..nothing()
    });
    assert_eq!(config.appearance.background_color, [1, 2, 3]);
    assert_eq!(config.shortcuts.launcher, "b");
    assert_eq!(config.version, 9);
    assert_eq!(config.input.focus_key, "F6");
    assert_eq!(config.input.overview_key, "F9");
    assert_eq!(config.workspace.default_layout, "freeform");
}

#[test]
fn the_configuration_file_is_found_by_the_environment() {
    let s = |t: &str| Some(t.to_string());
    assert_eq!(config_path(s("/x/y.toml"), s("/c"), s("/h")), "/x/y.toml");
    assert_eq!(config_path(None, s("/c"), s("/h")), "/c/veyra/config.toml");
    assert_eq!(config_path(None, s("/c/"), None), "/c/veyra/config.toml");
    assert_eq!(config_path(None, None, s("/h")), "/h/.config/veyra/config.toml");
    assert_eq!(config_path(None, None, None), "/tmp/.config/veyra/config.toml");
    assert_eq!(config_path(None, s(""), None), "veyra/config.toml");
}
