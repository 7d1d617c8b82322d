//! The OpenGL context attributes requested at window creation, the two named
//! presets, and the report that lists every attribute.

use vstd::prelude::*;

use crate::text::{decimal, push_decimal};

verus! {

/// Which OpenGL profile the context is created with.
#[derive(Clone, Copy, Debug, PartialEq, Eq, Structural)]
pub enum Profile {
    Compatibility,
    Core,
}

/// A requested OpenGL version.
#[derive(Clone, Copy, Debug, PartialEq, Eq, Structural)]
pub struct GlVersion {
    pub major: u8,
    pub minor: u8,
}

/// The attributes of the OpenGL context that the window host is asked for.
#[derive(Clone, Copy, Debug, PartialEq, Eq, Structural)]
pub struct GlConfig {
    pub version: GlVersion,
    pub profile: Profile,
    pub red_bits: u8,
    pub blue_bits: u8,
    pub green_bits: u8,
    pub alpha_bits: u8,
    pub depth_bits: u8,
    pub stencil_bits: u8,
    pub samples: Option<u8>,
    pub srgb: bool,
    pub double_buffer: bool,
    pub vsync: bool,
}

/// The two fixed configurations a program can pick between.
#[derive(Clone, Copy, Debug, PartialEq, Eq, Structural)]
pub enum Preset {
    /// The host's usual request: GL 3.2 core with sRGB and vsync.
    Standard,
    /// A conservative request that Wine's GL layer accepts: GL 3.0 core,
    /// no stencil, no multisampling, no sRGB, no vsync.
    WineCompatible,
}

/// The attributes baseview requests when the program states none.
pub open spec fn default_gl_config() -> GlConfig {
    GlConfig {
        version: GlVersion { major: 3, minor: 2 },
        profile: Profile::Core,
        red_bits: 8,
        blue_bits: 8,
        green_bits: 8,
        alpha_bits: 8,
        depth_bits: 24,
        stencil_bits: 8,
        samples: None,
        srgb: true,
        double_buffer: true,
        vsync: false,
    }
}

/// The host's default with only the sRGB flag chosen.
pub open spec fn srgb_gl_config(srgb: bool) -> GlConfig {
    GlConfig { srgb, ..default_gl_config() }
}

/// What each preset asks for.
pub open spec fn preset_gl_config(p: Preset) -> GlConfig {
    match p {
        Preset::Standard => GlConfig {
            version: GlVersion { major: 3, minor: 2 },
            profile: Profile::Core,
            srgb: true,
            vsync: true,
            ..default_gl_config()
        },
        Preset::WineCompatible => GlConfig {
            version: GlVersion { major: 3, minor: 0 },
            profile: Profile::Core,
            stencil_bits: 0,
            samples: None,
            srgb: false,
            vsync: false,
            ..default_gl_config()
        },
    }
}

/// Relies on baseview's `GlConfig::default`: the attributes it requests by
/// default, copied field by field.
#[verifier::external_body]
fn host_default_config() -> (c: GlConfig)
    ensures
        c == default_gl_config(),
{
    #[allow(deprecated)]
    let baseview::gl::GlConfig {
        version, profile, red_bits, blue_bits, green_bits, alpha_bits, depth_bits,
        stencil_bits, samples, srgb, double_buffer, vsync,
    } = baseview::gl::GlConfig::default();
    let profile = match profile {
        baseview::gl::Profile::Compatibility => Profile::Compatibility,
        baseview::gl::Profile::Core => Profile::Core,
    };
    GlConfig {
        version: GlVersion { major: version.0, minor: version.1 },
        profile, red_bits, blue_bits, green_bits, alpha_bits, depth_bits,
        stencil_bits, samples, srgb, double_buffer, vsync,
    }
}

impl Default for GlConfig {
    fn default() -> (c: GlConfig)
        ensures
            c == default_gl_config(),
    {
        host_default_config()
    }
}

impl GlConfig {
    /// The host's default attributes with the sRGB flag set to `srgb`.
    pub fn with_srgb(srgb: bool) -> (c: GlConfig)
        ensures
            c == srgb_gl_config(srgb),
    {
        GlConfig { srgb, ..host_default_config() }
    }

    /// The attributes of a preset.
    pub fn preset(p: Preset) -> (c: GlConfig)
        ensures
            c == preset_gl_config(p),
    {
        let base = host_default_config();
        match p {
            Preset::Standard => GlConfig {
                version: GlVersion { major: 3, minor: 2 },
                profile: Profile::Core,
                srgb: true,
                vsync: true,
                ..base
            },
            Preset::WineCompatible => GlConfig {
                version: GlVersion { major: 3, minor: 0 },
                profile: Profile::Core,
                stencil_bits: 0,
                samples: None,
                srgb: false,
                vsync: false,
                ..base
            },
        }
    }
}

/// `true` or `false`, as `{}` prints a `bool`.
pub open spec fn bool_text(b: bool) -> Seq<char> {
    if b { "true"@ } else { "false"@ }
}

/// The version as `{:?}` prints a pair: `(3, 2)`.
pub open spec fn version_text(v: GlVersion) -> Seq<char> {
    "("@ + decimal(v.major as nat) + ", "@ + decimal(v.minor as nat) + ")"@
}

/// The profile's name.
pub open spec fn profile_text(p: Profile) -> Seq<char> {
    match p {
        Profile::Compatibility => "Compatibility"@,
        Profile::Core => "Core"@,
    }
}

/// The sample count as `{:?}` prints an `Option`: `None` or `Some(4)`.
pub open spec fn samples_text(s: Option<u8>) -> Seq<char> {
    match s {
        Some(n) => "Some("@ + decimal(n as nat) + ")"@,
        None => "None"@,
    }
}

/// One line of the report: an indented attribute name and its value.
pub open spec fn field_line(name: Seq<char>, value: Seq<char>) -> Seq<char> {
    "[baseview-wine-test]   "@ + name + ": "@ + value
}

/// The report of a configuration: a heading, then one line per attribute.
pub open spec fn config_report(c: GlConfig) -> Seq<Seq<char>> {
    seq![
        "[baseview-wine-test] OpenGL Config:"@,
        field_line("version"@, version_text(c.version)),
        field_line("profile"@, profile_text(c.profile)),
        field_line("red_bits"@, decimal(c.red_bits as nat)),
        field_line("blue_bits"@, decimal(c.blue_bits as nat)),
        field_line("green_bits"@, decimal(c.green_bits as nat)),
        field_line("alpha_bits"@, decimal(c.alpha_bits as nat)),
        field_line("depth_bits"@, decimal(c.depth_bits as nat)),
        field_line("stencil_bits"@, decimal(c.stencil_bits as nat)),
        field_line("samples"@, samples_text(c.samples)),
        field_line("srgb"@, bool_text(c.srgb)),
        field_line("double_buffer"@, bool_text(c.double_buffer)),
        field_line("vsync"@, bool_text(c.vsync)),
    ]
}

fn line_start(name: &str) -> (r: String)
    ensures
        r@ == "[baseview-wine-test]   "@ + name@ + ": "@,
{
    let mut r = String::from_str("[baseview-wine-test]   ");
    r.append(name);
    r.append(": ");
    r
}

fn number_line(name: &str, n: u8) -> (r: String)
    ensures
        r@ == field_line(name@, decimal(n as nat)),
{
    let mut r = line_start(name);
    push_decimal(&mut r, n as u64);
    r
}

fn bool_line(name: &str, b: bool) -> (r: String)
    ensures
        r@ == field_line(name@, bool_text(b)),
{
    let mut r = line_start(name);
    if b {
        r.append("true");
    } else {
        r.append("false");
    }
    r
}

impl GlConfig {
    /// The lines that list every attribute, headed by one title line.
    pub fn report(&self) -> (r: Vec<String>)
        ensures
            r@.len() == config_report(*self).len(),
            forall|i: int| 0 <= i < r@.len() ==> #[trigger] r@[i]@ == config_report(*self)[i],
    {
        let mut r: Vec<String> = Vec::new();
        r.push(String::from_str("[baseview-wine-test] OpenGL Config:"));
        let mut version = line_start("version");
        version.append("(");
        push_decimal(&mut version, self.version.major as u64);
        version.append(", ");
        push_decimal(&mut version, self.version.minor as u64);
        version.append(")");
        r.push(version);
        let mut profile = line_start("profile");
        match self.profile {
            Profile::Compatibility => profile.append("Compatibility"),
            Profile::Core => profile.append("Core"),
        }
        r.push(profile);
        r.push(number_line("red_bits", self.red_bits));
        r.push(number_line("blue_bits", self.blue_bits));
        r.push(number_line("green_bits", self.green_bits));
        r.push(number_line("alpha_bits", self.alpha_bits));
        r.push(number_line("depth_bits", self.depth_bits));
        r.push(number_line("stencil_bits", self.stencil_bits));
        let mut samples = line_start("samples");
        match self.samples {
            Some(n) => {
                samples.append("Some(");
                push_decimal(&mut samples, n as u64);
                samples.append(")");
            },
            None => samples.append("None"),
        }
        r.push(samples);
        r.push(bool_line("srgb", self.srgb));
        r.push(bool_line("double_buffer", self.double_buffer));
        r.push(bool_line("vsync", self.vsync));
        let ghost expected = config_report(*self);
        assert(r@.len() == expected.len());
        assert forall|i: int| 0 <= i < r@.len() implies #[trigger] r@[i]@ == expected[i] by {
            assert(r@[1]@ =~= expected[1]);
            assert(r@[2]@ =~= expected[2]);
            assert(r@[9]@ =~= expected[9]);
        }
        r
    }
}

/// The two presets differ in the requested version, the stencil depth, the
/// sRGB flag and vsync; the conservative one also asks for no multisampling.
pub proof fn lemma_presets_differ()
    ensures
        ({
            let wine = preset_gl_config(Preset::WineCompatible);
            let standard = preset_gl_config(Preset::Standard);
            &&& wine.version == GlVersion { major: 3, minor: 0 }
            &&& wine.stencil_bits == 0
            &&& wine.samples is None
            &&& !wine.srgb
            &&& !wine.vsync
            &&& standard.version == GlVersion { major: 3, minor: 2 }
            &&& standard.stencil_bits == 8
            &&& standard.srgb
            &&& standard.vsync
            &&& wine.version != standard.version
            &&& wine.stencil_bits != standard.stencil_bits
            &&& wine.srgb != standard.srgb
            &&& wine.vsync != standard.vsync
        }),
{
}

} // verus!
