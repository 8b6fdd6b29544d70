//! The facts about the host that the adapters consult: the OS family and the
//! build number it reports. Both are plain values the caller supplies, so the
//! version gates are ordinary verified functions.

use vstd::prelude::*;

verus! {

/// The operating-system family the caller is running on.
#[derive(Clone, Copy, Debug, PartialEq, Eq)]
pub enum Platform {
    /// A Windows host: the Windows adapter is available.
    Windows,
    /// A macOS host: the vibrancy adapter is available.
    MacOs,
    /// Any other host (for example a Linux compositor): no adapter applies.
    Other,
}

/// An OS version as the OS reports it: major, minor and build number.
#[derive(Clone, Copy, Debug, PartialEq, Eq)]
pub struct OsVersion {
    pub major: u32,
    pub minor: u32,
    pub build: u32,
}

/// The host description the dispatcher and the adapters read.
#[derive(Clone, Copy, Debug, PartialEq, Eq)]
pub struct OsInfo {
    pub platform: Platform,
    pub version: OsVersion,
}

/// Windows 7 reports itself as version 6.1.
pub const WINDOWS_7_MAJOR: u32 = 6;
/// Windows 7 reports itself as version 6.1.
pub const WINDOWS_7_MINOR: u32 = 1;
/// First build with the private composition-attribute call (Windows 10 v1809).
pub const COMPOSITION_ATTRIBUTE_MIN_BUILD: u32 = 17763;
/// First build that accepts the undocumented mica window attribute (Windows 11).
pub const MICA_MIN_BUILD: u32 = 22000;
/// First build with the documented system backdrop-type window parameter.
pub const SYSTEM_BACKDROP_MIN_BUILD: u32 = 22523;

/// The version is the legacy blur-behind one, Windows 7.
pub open spec fn spec_is_win7(v: OsVersion) -> bool {
    v.major == WINDOWS_7_MAJOR && v.minor == WINDOWS_7_MINOR
}

pub fn is_win7(v: &OsVersion) -> (r: bool)
    ensures
        r == spec_is_win7(*v),
{
    v.major == WINDOWS_7_MAJOR && v.minor == WINDOWS_7_MINOR
}

/// The build knows the private composition-attribute call (v1809 or newer).
pub open spec fn spec_supports_composition_attribute(v: OsVersion) -> bool {
    v.build >= COMPOSITION_ATTRIBUTE_MIN_BUILD
}

pub fn supports_composition_attribute(v: &OsVersion) -> (r: bool)
    ensures
        r == spec_supports_composition_attribute(*v),
{
    v.build >= COMPOSITION_ATTRIBUTE_MIN_BUILD
}

/// The build accepts the undocumented mica window attribute (Windows 11).
pub open spec fn spec_supports_mica(v: OsVersion) -> bool {
    v.build >= MICA_MIN_BUILD
}

pub fn supports_mica(v: &OsVersion) -> (r: bool)
    ensures
        r == spec_supports_mica(*v),
{
    v.build >= MICA_MIN_BUILD
}

/// The build has the documented system backdrop-type window parameter, and
/// ignores the accent color the composition-attribute call carries.
pub open spec fn spec_supports_system_backdrop(v: OsVersion) -> bool {
    v.build >= SYSTEM_BACKDROP_MIN_BUILD
}

pub fn supports_system_backdrop(v: &OsVersion) -> (r: bool)
    ensures
        r == spec_supports_system_backdrop(*v),
{
    v.build >= SYSTEM_BACKDROP_MIN_BUILD
}

} // verus!
