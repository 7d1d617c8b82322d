use wine_gl_probe::config::{GlConfig, GlVersion, Preset, Profile};

#[test]
fn default_matches_baseview() {
    #[allow(deprecated)]
    let host = baseview::gl::GlConfig::default();
    let ours = GlConfig::default();
    assert_eq!(ours.version, GlVersion { major: host.version.0, minor: host.version.1 });
    assert_eq!(ours.profile, Profile::Core);
    assert_eq!(host.profile, baseview::gl::Profile::Core);
    assert_eq!(ours.red_bits, host.red_bits);
    assert_eq!(ours.blue_bits, host.blue_bits);
    assert_eq!(ours.green_bits, host.green_bits);
    assert_eq!(ours.alpha_bits, host.alpha_bits);
    assert_eq!(ours.depth_bits, host.depth_bits);
    assert_eq!(ours.stencil_bits, host.stencil_bits);
    assert_eq!(ours.samples, host.samples);
    assert_eq!(ours.srgb, host.srgb);
    #[allow(deprecated)]
    {
        assert_eq!(ours.double_buffer, host.double_buffer);
        assert_eq!(ours.vsync, host.vsync);
    }
}

#[test]
fn default_values() {
    let c = GlConfig::default();
    assert_eq!(c.version, GlVersion { major: 3, minor: 2 });
    assert_eq!(c.depth_bits, 24);
    assert_eq!(c.stencil_bits, 8);
    assert_eq!(c.samples, None);
    assert!(c.srgb);
    assert!(c.double_buffer);
    assert!(!c.vsync);
}

#[test]
fn with_srgb_changes_only_srgb() {
    let off = GlConfig::with_srgb(false);
    assert!(!off.srgb);
    assert_eq!(GlConfig { srgb: true, ..off }, GlConfig::default());
}

#[test]
fn wine_preset_fields() {
    let c = GlConfig::preset(Preset::WineCompatible);
    assert_eq!(c.version, GlVersion { major: 3, minor: 0 });
    assert_eq!(c.profile, Profile::Core);
    assert_eq!(c.stencil_bits, 0);
    assert_eq!(c.samples, None);
    assert!(!c.srgb);
    assert!(!c.vsync);
}

#[test]
fn standard_preset_fields() {
    let c = GlConfig::preset(Preset::Standard);
    assert_eq!(c.version, GlVersion { major: 3, minor: 2 });
    assert_eq!(c.profile, Profile::Core);
    assert_eq!(c.stencil_bits, 8);
    assert!(c.srgb);
    assert!(c.vsync);
}

#[test]
fn presets_differ_in_chosen_fields() {
    let w = GlConfig::preset(Preset::WineCompatible);
    let s = GlConfig::preset(Preset::Standard);
    assert_ne!(w.version, s.version);
    assert_ne!(w.stencil_bits, s.stencil_bits);
    assert_ne!(w.srgb, s.srgb);
    assert_ne!(w.vsync, s.vsync);
}

#[test]
fn report_of_default() {
    let lines = GlConfig::default().report();
    let expected = vec![
        "[baseview-wine-test] OpenGL Config:",
        "[baseview-wine-test]   version: (3, 2)",
        "[baseview-wine-test]   profile: Core",
        "[baseview-wine-test]   red_bits: 8",
        "[baseview-wine-test]   blue_bits: 8",
        "[baseview-wine-test]   green_bits: 8",
        "[baseview-wine-test]   alpha_bits: 8",
        "[baseview-wine-test]   depth_bits: 24",
        "[baseview-wine-test]   stencil_bits: 8",
        "[baseview-wine-test]   samples: None",
        "[baseview-wine-test]   srgb: true",
        "[baseview-wine-test]   double_buffer: true",
        "[baseview-wine-test]   vsync: false",
    ];
    assert_eq!(lines, expected);
}

#[test]
fn report_of_multisampled_compat() {
    let c = GlConfig {
        samples: Some(4),
        profile: Profile::Compatibility,
        srgb: false,
        version: GlVersion { major: 4, minor: 10 },
        ..GlConfig::default()
    };
    let lines = c.report();
    assert_eq!(lines.len(), 13);
    assert_eq!(lines[1], "[baseview-wine-test]   version: (4, 10)");
    assert_eq!(lines[2], "[baseview-wine-test]   profile: Compatibility");
    assert_eq!(lines[9], "[baseview-wine-test]   samples: Some(4)");
    assert_eq!(lines[10], "[baseview-wine-test]   srgb: false");
}
