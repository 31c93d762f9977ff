//! The configuration: what holds by default, what a file overrides, and
//! what is out of range. Real numbers are carried as the bits of their
//! single-precision form.
use vstd::prelude::*;

use crate::scene::Scalar;

verus! {

pub const CONFIG_VERSION: u32 = 1;

/// `0.0`.
pub const NOUGHT: Scalar = 0;

/// `0.1`.
pub const LEAST_SENSITIVITY: Scalar = 0x3dcc_cccd;

/// `0.15`.
pub const DARK_GREY: Scalar = 0x3e19_999a;

/// `1.0`.
pub const UNIT: Scalar = 0x3f80_0000;

/// `40.0`.
pub const SPACING: Scalar = 0x4220_0000;

/// `100.0`.
pub const MARGIN: Scalar = 0x42c8_0000;

/// `500.0`.
pub const FOCUS_DISTANCE: Scalar = 0x43fa_0000;

/// `800.0`.
pub const CAMERA_DISTANCE: Scalar = 0x4448_0000;

/// Longest camera transition, in milliseconds.
pub const LONGEST_TRANSITION_MS: u64 = 5000;

#[derive(Debug)]
pub struct InputConfig {
    pub focus_key: String,
    pub overview_key: String,
    pub sensitivity: Scalar,
    pub scroll_speed: Scalar,
}

#[derive(Debug)]
pub struct CameraConfig {
    pub focus_distance: Scalar,
    pub transition_ms: u64,
    pub default_yaw: Scalar,
    pub default_pitch: Scalar,
    pub default_distance: Scalar,
}

#[derive(Debug)]
pub struct WorkspaceConfig {
    pub count: usize,
    pub default_layout: String,
}

#[derive(Debug)]
pub struct LayoutConfig {
    pub spacing: Scalar,
    pub margin: Scalar,
}

#[derive(Debug)]
pub struct AppearanceConfig {
    pub background_color: [Scalar; 3],
}

#[derive(Debug)]
pub struct ShortcutConfig {
    pub alt_tab: String,
    pub launcher: String,
    pub toggle_shelf: String,
    pub send_to_shelf: String,
    pub reset_camera: String,
}

/// The configuration.
#[derive(Debug)]
pub struct Config {
    pub input: InputConfig,
    pub camera: CameraConfig,
    pub workspace: WorkspaceConfig,
    pub layout: LayoutConfig,
    pub appearance: AppearanceConfig,
    pub shortcuts: ShortcutConfig,
    pub version: u32,
}

/// What a configuration file holds; each section may be missing.
#[derive(Debug)]
pub struct ConfigFile {
    pub input: Option<InputConfig>,
    pub camera: Option<CameraConfig>,
    pub workspace: Option<WorkspaceConfig>,
    pub layout: Option<LayoutConfig>,
    pub appearance: Option<AppearanceConfig>,
    pub shortcuts: Option<ShortcutConfig>,
    pub version: Option<u32>,
}

/// The number is below zero: its sign is set, and it is neither zero nor
/// no number at all.
pub open spec fn is_negative(bits: Scalar) -> bool {
    0x8000_0000 < bits <= 0xff80_0000
}

/// The number is zero, of either sign.
pub open spec fn is_zero(bits: Scalar) -> bool {
    bits == 0 || bits == 0x8000_0000
}

pub open spec fn default_input(c: InputConfig) -> bool {
    &&& c.focus_key@ == "F6"@
    &&& c.overview_key@ == "F9"@
    &&& c.sensitivity == UNIT
    &&& c.scroll_speed == UNIT
}

pub open spec fn default_camera(c: CameraConfig) -> bool {
    &&& c.focus_distance == FOCUS_DISTANCE
    &&& c.transition_ms == 300
    &&& c.default_yaw == NOUGHT
    &&& c.default_pitch == NOUGHT
    &&& c.default_distance == CAMERA_DISTANCE
}

pub open spec fn default_workspace(c: WorkspaceConfig) -> bool {
    &&& c.count == 3
    &&& c.default_layout@ == "freeform"@
}

pub open spec fn default_layout(c: LayoutConfig) -> bool {
    c.spacing == SPACING && c.margin == MARGIN
}

pub open spec fn default_appearance(c: AppearanceConfig) -> bool {
    c.background_color@ == seq![DARK_GREY, DARK_GREY, DARK_GREY]
}

pub open spec fn default_shortcuts(c: ShortcutConfig) -> bool {
    &&& c.alt_tab@ == "Alt+Tab"@
    &&& c.launcher@ == "Meta+Space"@
    &&& c.toggle_shelf@ == "Meta+D"@
    &&& c.send_to_shelf@ == "Meta+Down"@
    &&& c.reset_camera@ == "Escape"@
}

/// Everything at its default.
pub open spec fn is_default(c: Config) -> bool {
    &&& default_input(c.input)
    &&& default_camera(c.camera)
    &&& default_workspace(c.workspace)
    &&& default_layout(c.layout)
    &&& default_appearance(c.appearance)
    &&& default_shortcuts(c.shortcuts)
    &&& c.version == CONFIG_VERSION
}

/// The section of the file, or what was there.
pub open spec fn or_kept<T>(section: Option<T>, kept: T) -> T {
    match section {
        Some(s) => s,
        None => kept,
    }
}

/// The configuration with the sections of a file.
pub open spec fn overridden(c: Config, f: ConfigFile) -> Config {
    Config {
        input: or_kept(f.input, c.input),
        camera: or_kept(f.camera, c.camera),
        workspace: or_kept(f.workspace, c.workspace),
        layout: or_kept(f.layout, c.layout),
        appearance: or_kept(f.appearance, c.appearance),
        shortcuts: or_kept(f.shortcuts, c.shortcuts),
        version: or_kept(f.version, c.version),
    }
}

/// The configuration with what is out of range put back into it.
pub open spec fn validated(c: Config) -> Config {
    Config {
        workspace: WorkspaceConfig {
            count: if c.workspace.count < 1 {
                1
            } else {
                c.workspace.count
            },
            ..c.workspace
        },
        layout: LayoutConfig {
            spacing: if is_negative(c.layout.spacing) {
                NOUGHT
            } else {
                c.layout.spacing
            },
            margin: if is_negative(c.layout.margin) {
                NOUGHT
            } else {
                c.layout.margin
            },
        },
        input: InputConfig {
            sensitivity: if is_negative(c.input.sensitivity) || is_zero(c.input.sensitivity) {
                LEAST_SENSITIVITY
            } else {
                c.input.sensitivity
            },
            ..c.input
        },
        camera: CameraConfig {
            transition_ms: if c.camera.transition_ms > LONGEST_TRANSITION_MS {
                LONGEST_TRANSITION_MS
            } else {
                c.camera.transition_ms
            },
            ..c.camera
        },
        ..c
    }
}

/// Everything in range.
pub open spec fn in_range(c: Config) -> bool {
    &&& c.workspace.count >= 1
    &&& !is_negative(c.layout.spacing)
    &&& !is_negative(c.layout.margin)
    &&& !is_negative(c.input.sensitivity)
    &&& !is_zero(c.input.sensitivity)
    &&& c.camera.transition_ms <= LONGEST_TRANSITION_MS
}

impl Default for InputConfig {
    fn default() -> (r: Self)
        ensures
            default_input(r),
    {
        InputConfig {
            focus_key: "F6".to_owned(),
            overview_key: "F9".to_owned(),
            sensitivity: UNIT,
            scroll_speed: UNIT,
        }
    }
}

impl Default for CameraConfig {
    fn default() -> (r: Self)
        ensures
            default_camera(r),
    {
        CameraConfig {
            focus_distance: FOCUS_DISTANCE,
            transition_ms: 300,
            default_yaw: NOUGHT,
            default_pitch: NOUGHT,
            default_distance: CAMERA_DISTANCE,
        }
    }
}

impl Default for WorkspaceConfig {
    fn default() -> (r: Self)
        ensures
            default_workspace(r),
    {
        WorkspaceConfig { count: 3, default_layout: "freeform".to_owned() }
    }
}

impl Default for LayoutConfig {
    fn default() -> (r: Self)
        ensures
            default_layout(r),
    {
        LayoutConfig { spacing: SPACING, margin: MARGIN }
    }
}

impl Default for AppearanceConfig {
    fn default() -> (r: Self)
        ensures
            default_appearance(r),
    {
        let r = AppearanceConfig { background_color: [DARK_GREY, DARK_GREY, DARK_GREY] };
        assert(r.background_color@ =~= seq![DARK_GREY, DARK_GREY, DARK_GREY]);
        r
    }
}

impl Default for ShortcutConfig {
    fn default() -> (r: Self)
        ensures
            default_shortcuts(r),
    {
        ShortcutConfig {
            alt_tab: "Alt+Tab".to_owned(),
            launcher: "Meta+Space".to_owned(),
            toggle_shelf: "Meta+D".to_owned(),
            send_to_shelf: "Meta+Down".to_owned(),
            reset_camera: "Escape".to_owned(),
        }
    }
}

impl Default for Config {
    fn default() -> (r: Self)
        ensures
            is_default(r),
    {
        Config {
            input: InputConfig::default(),
            camera: CameraConfig::default(),
            workspace: WorkspaceConfig::default(),
            layout: LayoutConfig::default(),
            appearance: AppearanceConfig::default(),
            shortcuts: ShortcutConfig::default(),
            version: CONFIG_VERSION,
        }
    }
}

fn negative(bits: Scalar) -> (r: bool)
    ensures
        r == is_negative(bits),
{
    0x8000_0000 < bits && bits <= 0xff80_0000
}

impl Config {
    /// The configuration that a file gives; without a readable one, the
    /// defaults. Values out of range are put back into it.
    pub fn load(file: Option<ConfigFile>) -> (r: Self)
        ensures
            match file {
                Some(f) => exists|d: Config|
                    #[trigger] is_default(d) && r == validated(overridden(d, f)),
                None => is_default(r),
            },
            in_range(r),
    {
        let mut config = Config::default();
        match file {
            Some(f) => {
                let ghost d = config;
                config.apply_overrides(f);
                config.validate();
                assert(is_default(d));
                config
            },
            None => config,
        }
    }

    /// Takes over the sections that the file has.
    pub fn apply_overrides(&mut self, overrides: ConfigFile)
        ensures
            *final(self) == overridden(*old(self), overrides),
    {
        if let Some(input) = overrides.input {
            self.input = input;
        }
        if let Some(camera) = overrides.camera {
            self.camera = camera;
        }
        if let Some(workspace) = overrides.workspace {
            self.workspace = workspace;
        }
        if let Some(layout) = overrides.layout {
            self.layout = layout;
        }
        if let Some(appearance) = overrides.appearance {
            self.appearance = appearance;
        }
        if let Some(shortcuts) = overrides.shortcuts {
            self.shortcuts = shortcuts;
        }
        if let Some(version) = overrides.version {
            self.version = version;
        }
    }

    /// Puts what is out of range back into it.
    pub fn validate(&mut self)
        ensures
            *final(self) == validated(*old(self)),
    {
        if self.workspace.count < 1 {
            self.workspace.count = 1;
        }
        if negative(self.layout.spacing) {
            self.layout.spacing = NOUGHT;
        }
        if negative(self.layout.margin) {
            self.layout.margin = NOUGHT;
        }
        if negative(self.input.sensitivity) || self.input.sensitivity == 0
            || self.input.sensitivity == 0x8000_0000 {
            self.input.sensitivity = LEAST_SENSITIVITY;
        }
        if self.camera.transition_ms > LONGEST_TRANSITION_MS {
            self.camera.transition_ms = LONGEST_TRANSITION_MS;
        }
    }
}

/// What was put into range is in range, and stays as it is when that is
/// done again.
pub proof fn law_validation_settles(c: Config)
    ensures
        in_range(validated(c)),
        validated(validated(c)) == validated(c),
{
}

/// A section that the file does not have keeps its values.
pub proof fn law_missing_section_keeps_values(c: Config, f: ConfigFile)
    requires
        in_range(c),
    ensures
        f.input is None ==> validated(overridden(c, f)).input == c.input,
        f.camera is None ==> validated(overridden(c, f)).camera == c.camera,
        f.workspace is None ==> validated(overridden(c, f)).workspace == c.workspace,
        f.layout is None ==> validated(overridden(c, f)).layout == c.layout,
        f.appearance is None ==> validated(overridden(c, f)).appearance == c.appearance,
        f.shortcuts is None ==> validated(overridden(c, f)).shortcuts == c.shortcuts,
        f.version is None ==> validated(overridden(c, f)).version == c.version,
{
}

/// A relative path below a directory.
pub open spec fn below(base: Seq<char>, path: Seq<char>) -> Seq<char> {
    if base.len() == 0 {
        path
    } else if base.last() == '/' {
        base + path
    } else {
        base + "/"@ + path
    }
}

/// Where the configuration file is, by the values of
/// `VEYRA_CONFIG_PATH`, `XDG_CONFIG_HOME` and `HOME`.
pub open spec fn path_of(
    explicit: Option<Seq<char>>,
    config_home: Option<Seq<char>>,
    home: Option<Seq<char>>,
) -> Seq<char> {
    match explicit {
        Some(path) => path,
        None => {
            let base = match config_home {
                Some(base) => base,
                None => below(
                    match home {
                        Some(home) => home,
                        None => "/tmp"@,
                    },
                    ".config"@,
                ),
            };
            below(below(base, "veyra"@), "config.toml"@)
        },
    }
}

fn join(base: String, path: &str) -> (r: String)
    ensures
        r@ == below(base@, path@),
{
    let n: usize = base.as_str().unicode_len();
    if n == 0 {
        path.to_owned()
    } else if base.as_str().get_char(n - 1) == '/' {
        base.concat(path)
    } else {
        base.concat("/").concat(path)
    }
}

/// The text of a variable that is set.
pub open spec fn text_of(v: Option<String>) -> Option<Seq<char>> {
    match v {
        Some(s) => Some(s@),
        None => None,
    }
}

/// Where the configuration file is.
pub fn config_path(
    explicit: Option<String>,
    config_home: Option<String>,
    home: Option<String>,
) -> (r: String)
    ensures
        r@ == path_of(text_of(explicit), text_of(config_home), text_of(home)),
{
    match explicit {
        Some(path) => path,
        None => {
            let base = match config_home {
                Some(base) => base,
                None => {
                    let h = match home {
                        Some(home) => home,
                        None => "/tmp".to_owned(),
                    };
                    join(h, ".config")
                },
            };
            join(join(base, "veyra"), "config.toml")
        },
    }
}

/// A section of the file replaces its namesake, and nothing else.
pub proof fn law_file_section_counts(c: Config, f: ConfigFile)
    ensures
        ({
            let n = overridden(c, f);
            &&& f.input matches Some(s) ==> n.input == s
            &&& f.camera matches Some(s) ==> n.camera == s
            &&& f.workspace matches Some(s) ==> n.workspace == s
            &&& f.layout matches Some(s) ==> n.layout == s
            &&& f.appearance matches Some(s) ==> n.appearance == s
            &&& f.shortcuts matches Some(s) ==> n.shortcuts == s
            &&& f.version matches Some(s) ==> n.version == s
            &&& f.input is None ==> n.input == c.input
            &&& f.camera is None ==> n.camera == c.camera
            &&& f.workspace is None ==> n.workspace == c.workspace
            &&& f.layout is None ==> n.layout == c.layout
            &&& f.appearance is None ==> n.appearance == c.appearance
            &&& f.shortcuts is None ==> n.shortcuts == c.shortcuts
            &&& f.version is None ==> n.version == c.version
        }),
{
}

/// Only what is out of range changes: no workspaces become one, negative
/// distances nought, a sensitivity that is not positive a tenth, and a
/// transition of more than five seconds five seconds.
pub proof fn law_validation_keeps_what_is_in_range(c: Config)
    ensures
        ({
            let n = validated(c);
            &&& c.workspace.count == 0 ==> n.workspace.count == 1
            &&& c.workspace.count > 0 ==> n.workspace.count == c.workspace.count
            &&& c.layout.spacing <= 0x8000_0000 ==> n.layout.spacing == c.layout.spacing
            &&& 0x8000_0000 < c.layout.spacing <= 0xff80_0000 ==> n.layout.spacing == 0
            &&& c.layout.margin <= 0x8000_0000 ==> n.layout.margin == c.layout.margin
            &&& 0x8000_0000 < c.layout.margin <= 0xff80_0000 ==> n.layout.margin == 0
            &&& 0 < c.input.sensitivity < 0x8000_0000 ==> n.input.sensitivity
                == c.input.sensitivity
            &&& c.input.sensitivity == 0 || 0x8000_0000 <= c.input.sensitivity <= 0xff80_0000
                ==> n.input.sensitivity == 0x3dcc_cccdu32
            &&& c.camera.transition_ms <= 5000 ==> n.camera.transition_ms == c.camera.transition_ms
            &&& c.camera.transition_ms > 5000 ==> n.camera.transition_ms == 5000
            &&& n.workspace.default_layout == c.workspace.default_layout
            &&& n.input.focus_key == c.input.focus_key
            &&& n.input.overview_key == c.input.overview_key
            &&& n.input.scroll_speed == c.input.scroll_speed
            &&& n.camera.focus_distance == c.camera.focus_distance
            &&& n.camera.default_yaw == c.camera.default_yaw
            &&& n.camera.default_pitch == c.camera.default_pitch
            &&& n.camera.default_distance == c.camera.default_distance
            &&& n.appearance == c.appearance
            &&& n.shortcuts == c.shortcuts
            &&& n.version == c.version
        }),
{
}

/// A file that is named is the one; else it is in the directory for
/// configuration; else in the home directory's, or in that of `/tmp`.
pub proof fn law_configuration_is_looked_for(
    path: Seq<char>,
    dir: Seq<char>,
    home: Option<Seq<char>>,
    config_home: Option<Seq<char>>,
)
    requires
        dir.len() > 0,
        dir.last() != '/',
    ensures
        path_of(Some(path), config_home, home) == path,
        path_of(None, Some(dir), home) == dir + "/veyra/config.toml"@,
        path_of(None, None, Some(dir)) == dir + "/.config/veyra/config.toml"@,
        path_of(None, None, None) == "/tmp/.config/veyra/config.toml"@,
{
    reveal_strlit("/");
    reveal_strlit("/tmp");
    reveal_strlit(".config");
    reveal_strlit("veyra");
    reveal_strlit("config.toml");
    reveal_strlit("/veyra/config.toml");
    reveal_strlit("/.config/veyra/config.toml");
    reveal_strlit("/tmp/.config/veyra/config.toml");
    let below_it = below(below(dir, "veyra"@), "config.toml"@);
    assert(below(dir, "veyra"@).last() == 'a');
    assert(below_it =~= dir + "/veyra/config.toml"@);
    let hidden = below(dir, ".config"@);
    assert(hidden.last() == 'g');
    assert(below(hidden, "veyra"@).last() == 'a');
    assert(below(below(hidden, "veyra"@), "config.toml"@) =~= dir + "/.config/veyra/config.toml"@);
    let tmp = below("/tmp"@, ".config"@);
    assert("/tmp"@.last() == 'p');
    assert(tmp.last() == 'g');
    assert(below(tmp, "veyra"@).last() == 'a');
    assert(below(below(tmp, "veyra"@), "config.toml"@) =~= "/tmp/.config/veyra/config.toml"@);
}

} // verus!
