use wine_gl_probe::config::{GlConfig, Preset};
use wine_gl_probe::settings::{eq_ignoring_case, get_gl_config, get_preset_config, parse_switch, Switch};

#[test]
fn switch_forms_on() {
    for s in ["1", "true", "TRUE", "True", "tRuE"] {
        assert_eq!(parse_switch(s), Switch::On, "{}", s);
    }
}

#[test]
fn switch_forms_off() {
    for s in ["0", "false", "FALSE", "False"] {
        assert_eq!(parse_switch(s), Switch::Off, "{}", s);
    }
}

#[test]
fn switch_forms_other() {
    assert_eq!(parse_switch(""), Switch::Empty);
    for s in ["yes", "2", " true", "true ", "01", "truee", "ţrue"] {
        assert_eq!(parse_switch(s), Switch::Invalid, "{}", s);
    }
}

#[test]
fn ignoring_case() {
    assert!(eq_ignoring_case("FaLsE", "false"));
    assert!(eq_ignoring_case("", ""));
    assert!(!eq_ignoring_case("fals", "false"));
    assert!(!eq_ignoring_case("[", "{"));
    assert!(!eq_ignoring_case("É", "é"));
}

#[test]
fn srgb_enabled_forms() {
    for s in ["1", "true", "TRUE", "True"] {
        let c = get_gl_config(Some(s));
        assert_eq!(c.config, GlConfig::with_srgb(true));
        assert!(c.config.srgb);
        assert_eq!(c.message, "[baseview-wine-test] FORCE_SRGB enabled - using sRGB framebuffer");
    }
}

#[test]
fn srgb_disabled_forms() {
    for s in ["0", "false", "FALSE"] {
        let c = get_gl_config(Some(s));
        assert!(!c.config.srgb);
        assert_eq!(c.config, GlConfig::with_srgb(false));
        assert_eq!(c.message, "[baseview-wine-test] FORCE_SRGB disabled - not using sRGB framebuffer");
    }
}

#[test]
fn srgb_unset() {
    let c = get_gl_config(None);
    assert_eq!(c.config, GlConfig::default());
    assert_eq!(c.message, "[baseview-wine-test] FORCE_SRGB not set, using default OpenGL settings");
}

#[test]
fn srgb_empty() {
    let c = get_gl_config(Some(""));
    assert_eq!(c.config, GlConfig::default());
    assert_eq!(c.message, "[baseview-wine-test] FORCE_SRGB is empty, using default OpenGL settings");
}

#[test]
fn srgb_invalid_keeps_original_text() {
    let c = get_gl_config(Some("Maybe"));
    assert_eq!(c.config, GlConfig::default());
    assert_eq!(c.message, "[baseview-wine-test] FORCE_SRGB has invalid value 'Maybe', using default");
}

#[test]
fn wine_compat_on() {
    for s in ["1", "true", "TRUE", "True"] {
        let c = get_preset_config(Some(s));
        assert_eq!(c.config, GlConfig::preset(Preset::WineCompatible));
        assert_eq!(c.message, "[egui-wine-test] WINE_COMPAT enabled - using conservative OpenGL settings");
    }
}

#[test]
fn wine_compat_off() {
    for v in [None, Some(""), Some("0"), Some("false"), Some("yes")] {
        let c = get_preset_config(v);
        assert_eq!(c.config, GlConfig::preset(Preset::Standard));
        assert_eq!(c.message, "[egui-wine-test] WINE_COMPAT not enabled - using default OpenGL settings");
    }
}
