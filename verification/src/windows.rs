//! The Windows adapter. A window's backdrop lives in four compositor
//! attributes: the legacy blur-behind flag, the private composition attribute
//! (an accent tag plus a packed gradient color), the documented system
//! backdrop-type parameter, and the undocumented mica flag. The adapter reads
//! the build number and writes the attributes the build supports; every
//! operation is the spec-level transition its contract names.

use vstd::prelude::*;

use crate::os::{
    spec_is_win7, spec_supports_composition_attribute, spec_supports_mica,
    spec_supports_system_backdrop, is_win7, supports_composition_attribute, supports_mica,
    supports_system_backdrop, OsVersion,
};
use crate::{Color, Error};

verus! {

/// The accent tag of the private composition-attribute call. The enabled
/// variants carry the packed gradient color handed to the call.
#[derive(Clone, Copy, Debug, PartialEq, Eq)]
pub enum Accent {
    /// No accent set (the cleared state).
    Disabled,
    /// The blur-behind accent.
    BlurBehind(u32),
    /// The acrylic blur-behind accent.
    AcrylicBlurBehind(u32),
}

/// The documented system backdrop-type window parameter.
#[derive(Clone, Copy, Debug, PartialEq, Eq)]
pub enum SystemBackdrop {
    /// The OS picks the backdrop (the untouched state).
    Auto,
    /// No backdrop (the cleared state).
    Disabled,
    /// The mica backdrop for main windows.
    MainWindow,
    /// The acrylic backdrop for transient windows.
    TransientWindow,
}

/// The per-window compositor attributes the adapter reads and writes. This is
/// the state the OS retains for a window; the adapter itself keeps none.
#[derive(Clone, Copy, Debug, PartialEq, Eq)]
pub struct Backdrop {
    /// The legacy blur-behind flag (the Windows 7 path).
    pub blur_behind: bool,
    /// The private composition attribute.
    pub accent: Accent,
    /// The documented system backdrop-type parameter.
    pub backdrop_type: SystemBackdrop,
    /// The undocumented mica window attribute.
    pub mica_effect: bool,
}

impl Backdrop {
    /// The attributes of a window nothing has touched.
    pub open spec fn spec_clean() -> Backdrop {
        Backdrop {
            blur_behind: false,
            accent: Accent::Disabled,
            backdrop_type: SystemBackdrop::Auto,
            mica_effect: false,
        }
    }

    pub fn clean() -> (r: Backdrop)
        ensures
            r == Backdrop::spec_clean(),
    {
        Backdrop {
            blur_behind: false,
            accent: Accent::Disabled,
            backdrop_type: SystemBackdrop::Auto,
            mica_effect: false,
        }
    }
}

/// Some attribute of the blur effect is set.
pub open spec fn blur_active(b: Backdrop) -> bool {
    b.blur_behind || b.accent is BlurBehind
}

/// Some attribute of the acrylic effect is set.
pub open spec fn acrylic_active(b: Backdrop) -> bool {
    b.accent is AcrylicBlurBehind || b.backdrop_type is TransientWindow
}

/// Some attribute of the mica effect is set.
pub open spec fn mica_active(b: Backdrop) -> bool {
    b.mica_effect || b.backdrop_type is MainWindow
}

/// No adapter-observable backdrop attribute is set.
pub open spec fn no_backdrop(b: Backdrop) -> bool {
    !blur_active(b) && !acrylic_active(b) && !mica_active(b)
}

/// The gradient color handed to the composition-attribute call: one byte per
/// channel, red in the lowest byte, then green, blue and alpha.
pub open spec fn spec_packed_color(c: Color) -> u32 {
    (c.0 + c.1 * 0x100 + c.2 * 0x1_0000 + c.3 * 0x100_0000) as u32
}

pub fn packed_color(c: Color) -> (r: u32)
    ensures
        r == spec_packed_color(c),
{
    (c.0 as u32) + (c.1 as u32) * 0x100 + (c.2 as u32) * 0x1_0000 + (c.3 as u32) * 0x100_0000
}

/// The gradient the blur path uses: the caller's color, or transparent black.
pub open spec fn spec_blur_gradient(c: Option<Color>) -> u32 {
    match c {
        Some(c) => spec_packed_color(c),
        None => spec_packed_color((0u8, 0u8, 0u8, 0u8)),
    }
}

/// The gradient the acrylic path uses: the caller's color, or a preset
/// translucent gray-black tint.
pub open spec fn spec_acrylic_gradient(c: Option<Color>) -> u32 {
    match c {
        Some(c) => spec_packed_color(c),
        None => spec_packed_color((18u8, 18u8, 18u8, 125u8)),
    }
}

/// Blur needs Windows 7 or a build with the composition-attribute call.
pub open spec fn spec_blur_supported(v: OsVersion) -> bool {
    spec_is_win7(v) || spec_supports_composition_attribute(v)
}

/// Acrylic needs a build with the composition-attribute call.
pub open spec fn spec_acrylic_supported(v: OsVersion) -> bool {
    spec_supports_composition_attribute(v)
}

/// Mica needs a Windows 11 build.
pub open spec fn spec_mica_supported(v: OsVersion) -> bool {
    spec_supports_mica(v)
}

/// What a successful `apply_blur` leaves behind: the legacy flag on Windows 7,
/// else the blur-behind accent with the packed color. Below the supported
/// versions the window is untouched.
pub open spec fn spec_apply_blur(b: Backdrop, v: OsVersion, c: Option<Color>) -> Backdrop {
    if spec_is_win7(v) {
        Backdrop { blur_behind: true, ..b }
    } else if spec_supports_composition_attribute(v) {
        Backdrop { accent: Accent::BlurBehind(spec_blur_gradient(c)), ..b }
    } else {
        b
    }
}

/// What `clear_blur` leaves behind: the blur attribute of the running build
/// reset, whether or not it was set.
pub open spec fn spec_clear_blur(b: Backdrop, v: OsVersion) -> Backdrop {
    if spec_is_win7(v) {
        Backdrop { blur_behind: false, ..b }
    } else if spec_supports_composition_attribute(v) {
        Backdrop { accent: Accent::Disabled, ..b }
    } else {
        b
    }
}

/// What a successful `apply_acrylic` leaves behind. On builds with the system
/// backdrop parameter the color is ignored by the OS; on older capable builds
/// the acrylic accent carries the packed color. Either way any lingering mica
/// flag is cleared first: acrylic and mica are exclusive backdrops.
pub open spec fn spec_apply_acrylic(b: Backdrop, v: OsVersion, c: Option<Color>) -> Backdrop {
    if spec_supports_system_backdrop(v) {
        Backdrop { mica_effect: false, backdrop_type: SystemBackdrop::TransientWindow, ..b }
    } else if spec_supports_composition_attribute(v) {
        Backdrop {
            mica_effect: false,
            accent: Accent::AcrylicBlurBehind(spec_acrylic_gradient(c)),
            ..b
        }
    } else {
        b
    }
}

/// What `clear_acrylic` leaves behind: the acrylic attribute of the running
/// build reset.
pub open spec fn spec_clear_acrylic(b: Backdrop, v: OsVersion) -> Backdrop {
    if spec_supports_system_backdrop(v) {
        Backdrop { backdrop_type: SystemBackdrop::Disabled, ..b }
    } else if spec_supports_composition_attribute(v) {
        Backdrop { accent: Accent::Disabled, ..b }
    } else {
        b
    }
}

/// What a successful `apply_mica` leaves behind. Any lingering composition
/// attribute from a previous acrylic or blur call is cleared first, then the
/// backdrop parameter (or, on older Windows 11 builds, the undocumented mica
/// flag) is set.
pub open spec fn spec_apply_mica(b: Backdrop, v: OsVersion) -> Backdrop {
    if spec_supports_system_backdrop(v) {
        Backdrop { accent: Accent::Disabled, backdrop_type: SystemBackdrop::MainWindow, ..b }
    } else if spec_supports_mica(v) {
        Backdrop { accent: Accent::Disabled, mica_effect: true, ..b }
    } else {
        b
    }
}

/// What `clear_mica` leaves behind: the mica attribute of the running build
/// reset.
pub open spec fn spec_clear_mica(b: Backdrop, v: OsVersion) -> Backdrop {
    if spec_supports_system_backdrop(v) {
        Backdrop { backdrop_type: SystemBackdrop::Disabled, ..b }
    } else if spec_supports_mica(v) {
        Backdrop { mica_effect: false, ..b }
    } else {
        b
    }
}

/// Applies the blur-behind effect. Works on Windows 7 and on Windows 10 v1809
/// or newer; the color has no visual effect on Windows 7.
pub fn apply_blur(b: &mut Backdrop, v: &OsVersion, color: Option<Color>) -> (r: Result<(), Error>)
    ensures
        r is Ok <==> spec_blur_supported(*v),
        *final(b) == spec_apply_blur(*old(b), *v, color),
        r matches Err(e) ==> ({
            &&& e matches Error::UnsupportedPlatformVersion(m)
            &&& m@ == "\"apply_blur()\" is only supported on Windows 7, Windows 10 v1809 or newer and Windows 11."@
        }),
{
    if is_win7(v) {
        b.blur_behind = true;
        Ok(())
    } else if supports_composition_attribute(v) {
        let g: u32 = match color {
            Some(c) => packed_color(c),
            None => packed_color((0, 0, 0, 0)),
        };
        b.accent = Accent::BlurBehind(g);
        Ok(())
    } else {
        Err(Error::UnsupportedPlatformVersion(
            "\"apply_blur()\" is only supported on Windows 7, Windows 10 v1809 or newer and Windows 11.",
        ))
    }
}

/// Clears the blur-behind effect. A clear on a window that never had blur is a
/// no-op success.
pub fn clear_blur(b: &mut Backdrop, v: &OsVersion) -> (r: Result<(), Error>)
    ensures
        r is Ok <==> spec_blur_supported(*v),
        *final(b) == spec_clear_blur(*old(b), *v),
        r matches Err(e) ==> ({
            &&& e matches Error::UnsupportedPlatformVersion(m)
            &&& m@ == "\"clear_blur()\" is only supported on Windows 7, Windows 10 v1809 or newer and Windows 11."@
        }),
{
    if is_win7(v) {
        b.blur_behind = false;
        Ok(())
    } else if supports_composition_attribute(v) {
        b.accent = Accent::Disabled;
        Ok(())
    } else {
        Err(Error::UnsupportedPlatformVersion(
            "\"clear_blur()\" is only supported on Windows 7, Windows 10 v1809 or newer and Windows 11.",
        ))
    }
}

/// Applies the acrylic effect. Needs Windows 10 v1809 or newer; on builds with
/// the system backdrop parameter the color is accepted but ignored by the OS.
pub fn apply_acrylic(b: &mut Backdrop, v: &OsVersion, color: Option<Color>) -> (r: Result<
    (),
    Error,
>)
    ensures
        r is Ok <==> spec_acrylic_supported(*v),
        *final(b) == spec_apply_acrylic(*old(b), *v, color),
        r matches Err(e) ==> ({
            &&& e matches Error::UnsupportedPlatformVersion(m)
            &&& m@ == "\"apply_acrylic()\" is only supported on Windows 10 v1809 or newer and Windows 11."@
        }),
{
    if supports_system_backdrop(v) {
        b.mica_effect = false;
        b.backdrop_type = SystemBackdrop::TransientWindow;
        Ok(())
    } else if supports_composition_attribute(v) {
        let g: u32 = match color {
            Some(c) => packed_color(c),
            None => packed_color((18, 18, 18, 125)),
        };
        b.mica_effect = false;
        b.accent = Accent::AcrylicBlurBehind(g);
        Ok(())
    } else {
        Err(Error::UnsupportedPlatformVersion(
            "\"apply_acrylic()\" is only supported on Windows 10 v1809 or newer and Windows 11.",
        ))
    }
}

/// Clears the acrylic effect. A clear on a window that never had acrylic is a
/// no-op success.
pub fn clear_acrylic(b: &mut Backdrop, v: &OsVersion) -> (r: Result<(), Error>)
    ensures
        r is Ok <==> spec_acrylic_supported(*v),
        *final(b) == spec_clear_acrylic(*old(b), *v),
        r matches Err(e) ==> ({
            &&& e matches Error::UnsupportedPlatformVersion(m)
            &&& m@ == "\"clear_acrylic()\" is only supported on Windows 10 v1809 or newer and Windows 11."@
        }),
{
    if supports_system_backdrop(v) {
        b.backdrop_type = SystemBackdrop::Disabled;
        Ok(())
    } else if supports_composition_attribute(v) {
        b.accent = Accent::Disabled;
        Ok(())
    } else {
        Err(Error::UnsupportedPlatformVersion(
            "\"clear_acrylic()\" is only supported on Windows 10 v1809 or newer and Windows 11.",
        ))
    }
}

/// Applies the mica effect. Needs Windows 11; clears a lingering composition
/// attribute before setting the new backdrop.
pub fn apply_mica(b: &mut Backdrop, v: &OsVersion) -> (r: Result<(), Error>)
    ensures
        r is Ok <==> spec_mica_supported(*v),
        *final(b) == spec_apply_mica(*old(b), *v),
        r matches Err(e) ==> ({
            &&& e matches Error::UnsupportedPlatformVersion(m)
            &&& m@ == "\"apply_mica()\" is only supported on Windows 11."@
        }),
{
    if supports_system_backdrop(v) {
        b.accent = Accent::Disabled;
        b.backdrop_type = SystemBackdrop::MainWindow;
        Ok(())
    } else if supports_mica(v) {
        b.accent = Accent::Disabled;
        b.mica_effect = true;
        Ok(())
    } else {
        Err(Error::UnsupportedPlatformVersion("\"apply_mica()\" is only supported on Windows 11."))
    }
}

/// Clears the mica effect. A clear on a window that never had mica is a no-op
/// success.
pub fn clear_mica(b: &mut Backdrop, v: &OsVersion) -> (r: Result<(), Error>)
    ensures
        r is Ok <==> spec_mica_supported(*v),
        *final(b) == spec_clear_mica(*old(b), *v),
        r matches Err(e) ==> ({
            &&& e matches Error::UnsupportedPlatformVersion(m)
            &&& m@ == "\"clear_mica()\" is only supported on Windows 11."@
        }),
{
    if supports_system_backdrop(v) {
        b.backdrop_type = SystemBackdrop::Disabled;
        Ok(())
    } else if supports_mica(v) {
        b.mica_effect = false;
        Ok(())
    } else {
        Err(Error::UnsupportedPlatformVersion("\"clear_mica()\" is only supported on Windows 11."))
    }
}

/// On a clean window, applying blur and then clearing it leaves no
/// adapter-observable backdrop attribute set, on every supported version.
pub proof fn lemma_blur_apply_then_clear(b: Backdrop, v: OsVersion, c: Option<Color>)
    requires
        no_backdrop(b),
        spec_blur_supported(v),
    ensures
        no_backdrop(spec_clear_blur(spec_apply_blur(b, v, c), v)),
{
}

/// On a clean window, applying acrylic and then clearing it leaves no
/// adapter-observable backdrop attribute set, on every supported version.
pub proof fn lemma_acrylic_apply_then_clear(b: Backdrop, v: OsVersion, c: Option<Color>)
    requires
        no_backdrop(b),
        spec_acrylic_supported(v),
    ensures
        no_backdrop(spec_clear_acrylic(spec_apply_acrylic(b, v, c), v)),
{
}

/// On a clean window, applying mica and then clearing it leaves no
/// adapter-observable backdrop attribute set, on every supported version.
pub proof fn lemma_mica_apply_then_clear(b: Backdrop, v: OsVersion)
    requires
        no_backdrop(b),
        spec_mica_supported(v),
    ensures
        no_backdrop(spec_clear_mica(spec_apply_mica(b, v), v)),
{
}

/// Applying blur twice in a row leaves the same attributes as applying it
/// once: the apply is idempotent.
pub proof fn lemma_apply_blur_idempotent(b: Backdrop, v: OsVersion, c: Option<Color>)
    ensures
        spec_apply_blur(spec_apply_blur(b, v, c), v, c) == spec_apply_blur(b, v, c),
{
}

/// Applying acrylic twice in a row leaves the same attributes as applying it
/// once: the apply is idempotent.
pub proof fn lemma_apply_acrylic_idempotent(b: Backdrop, v: OsVersion, c: Option<Color>)
    ensures
        spec_apply_acrylic(spec_apply_acrylic(b, v, c), v, c) == spec_apply_acrylic(b, v, c),
{
}

/// Applying mica twice in a row leaves the same attributes as applying it
/// once: the apply is idempotent.
pub proof fn lemma_apply_mica_idempotent(b: Backdrop, v: OsVersion)
    ensures
        spec_apply_mica(spec_apply_mica(b, v), v) == spec_apply_mica(b, v),
{
}

/// On a clean window of a mica-capable build, applying mica and then acrylic
/// leaves the window in the acrylic state only: no residual mica or blur
/// attribute.
pub proof fn lemma_mica_then_acrylic(b: Backdrop, v: OsVersion, c: Option<Color>)
    requires
        no_backdrop(b),
        spec_mica_supported(v),
    ensures
        ({
            let f = spec_apply_acrylic(spec_apply_mica(b, v), v, c);
            acrylic_active(f) && !mica_active(f) && !blur_active(f)
        }),
{
}

/// On a clean window of a mica-capable build, applying acrylic and then mica
/// leaves the window in the mica state only: no residual acrylic or blur
/// attribute.
pub proof fn lemma_acrylic_then_mica(b: Backdrop, v: OsVersion, c: Option<Color>)
    requires
        no_backdrop(b),
        spec_mica_supported(v),
    ensures
        ({
            let f = spec_apply_mica(spec_apply_acrylic(b, v, c), v);
            mica_active(f) && !acrylic_active(f) && !blur_active(f)
        }),
{
}

} // verus!
