use veyra::capabilities::{check_capabilities, version_suffices, CapabilityReport, Probe};

fn report(all: bool) -> CapabilityReport {
    CapabilityReport {
        drm_available: all,
        kms_available: all,
        gbm_available: all,
        egl_available: all,
        gles_available: all,
        min_version: all,
        min_extensions: Vec::new(),
        errors: Vec::new(),
    }
}

fn working() -> Probe {
    Probe {
        device: true,
        kms: Ok(()),
        gbm: Ok(()),
        egl: Ok(()),
        gles: Ok("3.2".to_string()),
    }
}

#[test]
fn capability_report_defaults() {
    let report = report(false);
    assert!(!report.can_render_natively());
}

#[test]
fn can_render_requires_all() {
    let mut report = report(true);
    assert!(report.can_render_natively());

    report.gles_available = false;
    assert!(!report.can_render_natively());

    report.gles_available = true;
    report.min_version = false;
    assert!(!report.can_render_natively());
}

#[test]
fn report_errors_recorded() {
    let report = CapabilityReport { errors: vec!["test error".into()], ..report(false) };
    assert!(!report.errors.is_empty());
}

#[test]
fn a_working_machine_renders_natively() {
    let r = check_capabilities(&working());
    assert!(r.can_render_natively());
    assert!(r.errors.is_empty());
}

#[test]
fn no_device_ends_the_probe() {
    let r = check_capabilities(&Probe { device: false, ..working() });
    assert!(!r.drm_available);
    assert!(!r.kms_available);
    assert_eq!(r.errors, vec!["no DRM device at /dev/dri/card*".to_string()]);
}

#[test]
fn each_layer_reports_its_own_failure() {
    let r = check_capabilities(&Probe { kms: Err("busy".into()), ..working() });
    assert_eq!(r.errors, vec!["KMS: busy".to_string()]);
    assert!(!r.egl_available);

    let r = check_capabilities(&Probe { gbm: Err("none".into()), ..working() });
    assert_eq!(r.errors, vec!["GBM: none".to_string()]);
    assert!(r.egl_available && r.gles_available);
    assert!(!r.can_render_natively());

    let r = check_capabilities(&Probe { egl: Err("bad".into()), ..working() });
    assert_eq!(r.errors, vec!["EGL: bad".to_string()]);
    assert!(!r.gles_available);

    let r = check_capabilities(&Probe { gles: Err("lost".into()), ..working() });
    assert_eq!(r.errors, vec!["GLES: lost".to_string()]);
    assert!(r.egl_available);

    let r = check_capabilities(&Probe { gles: Ok("1.1".into()), ..working() });
    assert_eq!(r.errors, vec!["GLES version < 2.0".to_string()]);
    assert!(r.gles_available && !r.min_version);
}

#[test]
fn versions_are_read_up_to_the_first_dot() {
    assert!(version_suffices("2"));
    assert!(version_suffices("2.0 Mesa"));
    assert!(version_suffices("+3.1"));
    assert!(!version_suffices("1.9"));
    assert!(!version_suffices("OpenGL ES 3.2"));
    assert!(!version_suffices(""));
    assert!(!version_suffices("4294967296.0"));
}
