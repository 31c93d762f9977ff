use veyra::app_switcher::ApplicationSwitcher;
use veyra::scene::VisualId;

#[test]
fn register_single_app() {
    let mut sw = ApplicationSwitcher::new();
    sw.register_visual("org.wezfurlong.wezterm", VisualId(1));
    assert_eq!(sw.all_app_ids().len(), 1);
    assert_eq!(sw.all_app_ids()[0].as_str(), "org.wezfurlong.wezterm");
}

#[test]
fn register_multiple_visuals_same_app() {
    let mut sw = ApplicationSwitcher::new();
    sw.register_visual("org.wezfurlong.wezterm", VisualId(1));
    sw.register_visual("org.wezfurlong.wezterm", VisualId(2));
    assert_eq!(sw.all_app_ids().len(), 1);
}

#[test]
fn two_apps_registered() {
    let mut sw = ApplicationSwitcher::new();
    sw.register_visual("app1", VisualId(1));
    sw.register_visual("app2", VisualId(2));
    assert_eq!(sw.all_app_ids().len(), 2);
}
