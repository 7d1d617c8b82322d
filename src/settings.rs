//! Turning the text of a switch variable (`FORCE_SRGB`, `WINE_COMPAT`) into a
//! configuration, together with the diagnostic line that reports the choice.

use vstd::prelude::*;

use crate::config::{default_gl_config, srgb_gl_config, preset_gl_config, GlConfig, Preset};

verus! {

/// What the text of a switch variable says.
#[derive(Clone, Copy, Debug, PartialEq, Eq, Structural)]
pub enum Switch {
    /// The variable is set to the empty string.
    Empty,
    /// `1` or `true`, in any case.
    On,
    /// `0` or `false`, in any case.
    Off,
    /// Anything else.
    Invalid,
}

/// A configuration and the line that reports how it was chosen.
#[derive(Debug)]
pub struct ConfigChoice {
    pub config: GlConfig,
    pub message: String,
}

/// `c` with ASCII upper-case letters taken to lower case, as a code point.
pub open spec fn folded(c: char) -> u32 {
    if 'A' <= c && c <= 'Z' {
        (c as u32 + 32) as u32
    } else {
        c as u32
    }
}

/// `s` and `t` are equal when ASCII letter case is ignored.
pub open spec fn same_ignoring_case(s: Seq<char>, t: Seq<char>) -> bool {
    &&& s.len() == t.len()
    &&& forall|i: int| 0 <= i < s.len() ==> #[trigger] folded(s[i]) == folded(t[i])
}

/// How the text `s` of a switch variable reads.
pub open spec fn switch_of(s: Seq<char>) -> Switch {
    if s.len() == 0 {
        Switch::Empty
    } else if same_ignoring_case(s, "1"@) || same_ignoring_case(s, "true"@) {
        Switch::On
    } else if same_ignoring_case(s, "0"@) || same_ignoring_case(s, "false"@) {
        Switch::Off
    } else {
        Switch::Invalid
    }
}

/// Whether `s` and `t` are equal when ASCII letter case is ignored.
pub fn eq_ignoring_case(s: &str, t: &str) -> (r: bool)
    ensures
        r == same_ignoring_case(s@, t@),
{
    let n = s.unicode_len();
    if n != t.unicode_len() {
        return false;
    }
    let mut i: usize = 0;
    while i < n
        invariant
            n == s@.len(),
            n == t@.len(),
            i <= n,
            forall|j: int| 0 <= j < i ==> #[trigger] folded(s@[j]) == folded(t@[j]),
        decreases n - i,
    {
        let a = s.get_char(i);
        let b = t.get_char(i);
        let fa: u32 = if 'A' <= a && a <= 'Z' { a as u32 + 32 } else { a as u32 };
        let fb: u32 = if 'A' <= b && b <= 'Z' { b as u32 + 32 } else { b as u32 };
        if fa != fb {
            assert(folded(s@[i as int]) != folded(t@[i as int]));
            return false;
        }
        i = i + 1;
    }
    true
}

/// Reads the text of a switch variable.
pub fn parse_switch(s: &str) -> (r: Switch)
    ensures
        r == switch_of(s@),
{
    if s.unicode_len() == 0 {
        Switch::Empty
    } else if eq_ignoring_case(s, "1") || eq_ignoring_case(s, "true") {
        Switch::On
    } else if eq_ignoring_case(s, "0") || eq_ignoring_case(s, "false") {
        Switch::Off
    } else {
        Switch::Invalid
    }
}

/// Switch texts that differ only in ASCII letter case read the same.
pub proof fn lemma_switch_ignores_case(s: Seq<char>, t: Seq<char>)
    requires
        same_ignoring_case(s, t),
    ensures
        switch_of(s) == switch_of(t),
{
    assert forall|u: Seq<char>| same_ignoring_case(s, u) == same_ignoring_case(t, u) by {
        if same_ignoring_case(s, u) {
            assert forall|i: int| 0 <= i < t.len() implies #[trigger] folded(t[i]) == folded(u[i]) by {
                assert(folded(s[i]) == folded(t[i]));
            }
        }
        if same_ignoring_case(t, u) {
            assert forall|i: int| 0 <= i < s.len() implies #[trigger] folded(s[i]) == folded(u[i]) by {
                assert(folded(s[i]) == folded(t[i]));
            }
        }
    }
    assert(same_ignoring_case(s, "1"@) == same_ignoring_case(t, "1"@));
    assert(same_ignoring_case(s, "true"@) == same_ignoring_case(t, "true"@));
    assert(same_ignoring_case(s, "0"@) == same_ignoring_case(t, "0"@));
    assert(same_ignoring_case(s, "false"@) == same_ignoring_case(t, "false"@));
}

/// The configuration that the `FORCE_SRGB` text `v` selects (`None`: unset):
/// the sRGB flag for a clear on or off, else the host's default.
pub open spec fn srgb_choice_config(v: Option<Seq<char>>) -> GlConfig {
    match v {
        Some(s) => match switch_of(s) {
            Switch::On => srgb_gl_config(true),
            Switch::Off => srgb_gl_config(false),
            _ => default_gl_config(),
        },
        None => default_gl_config(),
    }
}

/// The line that reports the choice made from the `FORCE_SRGB` text `v`.
pub open spec fn srgb_choice_message(v: Option<Seq<char>>) -> Seq<char> {
    match v {
        Some(s) => match switch_of(s) {
            Switch::Empty => "[baseview-wine-test] FORCE_SRGB is empty, using default OpenGL settings"@,
            Switch::On => "[baseview-wine-test] FORCE_SRGB enabled - using sRGB framebuffer"@,
            Switch::Off => "[baseview-wine-test] FORCE_SRGB disabled - not using sRGB framebuffer"@,
            Switch::Invalid => "[baseview-wine-test] FORCE_SRGB has invalid value '"@ + s
                + "', using default"@,
        },
        None => "[baseview-wine-test] FORCE_SRGB not set, using default OpenGL settings"@,
    }
}

/// The view of an optional text.
pub open spec fn text_of(v: Option<&str>) -> Option<Seq<char>> {
    match v {
        Some(s) => Some(s@),
        None => None,
    }
}

/// Builds the OpenGL configuration from the text of `FORCE_SRGB`
/// (`None` when the variable is not set). It never fails: an empty or
/// unreadable value falls back to the host's default, and the message says so.
pub fn get_gl_config(force_srgb: Option<&str>) -> (r: ConfigChoice)
    ensures
        r.config == srgb_choice_config(text_of(force_srgb)),
        r.message@ == srgb_choice_message(text_of(force_srgb)),
{
    match force_srgb {
        None => ConfigChoice {
            config: GlConfig::default(),
            message: String::from_str(
                "[baseview-wine-test] FORCE_SRGB not set, using default OpenGL settings",
            ),
        },
        Some(s) => match parse_switch(s) {
            Switch::Empty => ConfigChoice {
                config: GlConfig::default(),
                message: String::from_str(
                    "[baseview-wine-test] FORCE_SRGB is empty, using default OpenGL settings",
                ),
            },
            Switch::On => ConfigChoice {
                config: GlConfig::with_srgb(true),
                message: String::from_str(
                    "[baseview-wine-test] FORCE_SRGB enabled - using sRGB framebuffer",
                ),
            },
            Switch::Off => ConfigChoice {
                config: GlConfig::with_srgb(false),
                message: String::from_str(
                    "[baseview-wine-test] FORCE_SRGB disabled - not using sRGB framebuffer",
                ),
            },
            Switch::Invalid => {
                let mut message = String::from_str(
                    "[baseview-wine-test] FORCE_SRGB has invalid value '",
                );
                message.append(s);
                message.append("', using default");
                ConfigChoice { config: GlConfig::default(), message }
            },
        },
    }
}

/// Whether the `WINE_COMPAT` text `v` asks for the conservative preset.
pub open spec fn wine_compat_requested(v: Option<Seq<char>>) -> bool {
    match v {
        Some(s) => switch_of(s) == Switch::On,
        None => false,
    }
}

/// The preset that the `WINE_COMPAT` text `v` selects.
pub open spec fn preset_choice(v: Option<Seq<char>>) -> Preset {
    if wine_compat_requested(v) {
        Preset::WineCompatible
    } else {
        Preset::Standard
    }
}

/// The line that reports the preset chosen from the `WINE_COMPAT` text `v`.
pub open spec fn preset_choice_message(v: Option<Seq<char>>) -> Seq<char> {
    if wine_compat_requested(v) {
        "[egui-wine-test] WINE_COMPAT enabled - using conservative OpenGL settings"@
    } else {
        "[egui-wine-test] WINE_COMPAT not enabled - using default OpenGL settings"@
    }
}

/// Picks a preset from the text of `WINE_COMPAT` (`None` when not set): the
/// conservative one for `1` or `true` in any case, the standard one otherwise.
pub fn get_preset_config(wine_compat: Option<&str>) -> (r: ConfigChoice)
    ensures
        r.config == preset_gl_config(preset_choice(text_of(wine_compat))),
        r.message@ == preset_choice_message(text_of(wine_compat)),
{
    let requested = match wine_compat {
        Some(s) => parse_switch(s) == Switch::On,
        None => false,
    };
    if requested {
        ConfigChoice {
            config: GlConfig::preset(Preset::WineCompatible),
            message: String::from_str(
                "[egui-wine-test] WINE_COMPAT enabled - using conservative OpenGL settings",
            ),
        }
    } else {
        ConfigChoice {
            config: GlConfig::preset(Preset::Standard),
            message: String::from_str(
                "[egui-wine-test] WINE_COMPAT not enabled - using default OpenGL settings",
            ),
        }
    }
}

} // verus!
