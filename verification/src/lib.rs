//! Apply desktop-compositor backdrop effects (blur, acrylic, mica, vibrancy)
//! to a native window, given a platform-tagged window handle.
//!
//! The library models what each adapter reads and writes of the host: the
//! handle's platform tag, the OS family and build number, the main-thread
//! predicate, and the per-window compositor attributes. Each operation is a
//! pure transition on that model, with a contract saying exactly which
//! attributes it sets and on which inputs it fails.

use vstd::prelude::*;

pub mod macos;
mod os;
mod window;
pub mod windows;

pub use macos::NSVisualEffectMaterial;
pub use os::{
    OsInfo, OsVersion, Platform, COMPOSITION_ATTRIBUTE_MIN_BUILD, MICA_MIN_BUILD,
    SYSTEM_BACKDROP_MIN_BUILD, WINDOWS_7_MAJOR, WINDOWS_7_MINOR,
};
pub use window::{window_from_raw, Window, WindowHandle};

verus! {

/// A tuple of RGBA channels. Each value has a minimum of 0 and a maximum of 255.
pub type Color = (u8, u8, u8, u8);

/// The closed set of failure reasons both adapters surface.
#[derive(Clone, Copy, Debug)]
pub enum Error {
    /// The operation has no implementation on the running OS, or the handle's
    /// platform tag does not match it.
    UnsupportedPlatform(&'static str),
    /// The OS family is right, but its build predates the requested effect.
    UnsupportedPlatformVersion(&'static str),
    /// The operation must run on the application's main thread and was not.
    NotMainThread(&'static str),
}

impl Error {
    /// The static message carried by every variant.
    pub fn message(&self) -> (r: &'static str)
        ensures
            self matches Error::UnsupportedPlatform(m) ==> r@ == m@,
            self matches Error::UnsupportedPlatformVersion(m) ==> r@ == m@,
            self matches Error::NotMainThread(m) ==> r@ == m@,
    {
        match self {
            Error::UnsupportedPlatform(m) => m,
            Error::UnsupportedPlatformVersion(m) => m,
            Error::NotMainThread(m) => m,
        }
    }
}

/// The request reaches the Windows adapter: the host runs Windows and the
/// handle is a Windows one.
pub open spec fn spec_routes_to_windows(os: OsInfo, h: WindowHandle) -> bool {
    os.platform is Windows && h is Win32
}

/// The request reaches the macOS adapter: the host runs macOS and the handle
/// is an AppKit one.
pub open spec fn spec_routes_to_macos(os: OsInfo, h: WindowHandle) -> bool {
    os.platform is MacOs && h is AppKit
}

/// Applies blur effect to window. Works only on Windows 7, Windows 10 v1809
/// or newer and Windows 11; `color` is ignored on Windows 7 and has no effect.
pub fn apply_blur(window: &mut Window, os: &OsInfo, color: Option<Color>) -> (r: Result<(), Error>)
    ensures
        spec_routes_to_windows(*os, old(window).handle) ==> ({
            &&& r is Ok <==> windows::spec_blur_supported(os.version)
            &&& final(window).backdrop == windows::spec_apply_blur(
                old(window).backdrop,
                os.version,
                color,
            )
            &&& r matches Err(e) ==> e is UnsupportedPlatformVersion
            &&& final(window).handle == old(window).handle
            &&& final(window).view == old(window).view
        }),
        !spec_routes_to_windows(*os, old(window).handle) ==> ({
            &&& r matches Err(e)
            &&& e matches Error::UnsupportedPlatform(m)
            &&& m@ == "\"apply_blur()\" is only supported on Windows."@
            &&& *final(window) == *old(window)
        }),
{
    match (os.platform, window.handle) {
        (Platform::Windows, WindowHandle::Win32(_)) => {
            windows::apply_blur(&mut window.backdrop, &os.version, color)
        },
        _ => Err(Error::UnsupportedPlatform("\"apply_blur()\" is only supported on Windows.")),
    }
}

/// Clears blur effect applied to window. Works only on Windows 7, Windows 10
/// v1809 or newer and Windows 11; clearing a window that never had blur is a
/// no-op success.
pub fn clear_blur(window: &mut Window, os: &OsInfo) -> (r: Result<(), Error>)
    ensures
        spec_routes_to_windows(*os, old(window).handle) ==> ({
            &&& r is Ok <==> windows::spec_blur_supported(os.version)
            &&& final(window).backdrop == windows::spec_clear_blur(old(window).backdrop, os.version)
            &&& r matches Err(e) ==> e is UnsupportedPlatformVersion
            &&& final(window).handle == old(window).handle
            &&& final(window).view == old(window).view
        }),
        !spec_routes_to_windows(*os, old(window).handle) ==> ({
            &&& r matches Err(e)
            &&& e matches Error::UnsupportedPlatform(m)
            &&& m@ == "\"clear_blur()\" is only supported on Windows."@
            &&& *final(window) == *old(window)
        }),
{
    match (os.platform, window.handle) {
        (Platform::Windows, WindowHandle::Win32(_)) => {
            windows::clear_blur(&mut window.backdrop, &os.version)
        },
        _ => Err(Error::UnsupportedPlatform("\"clear_blur()\" is only supported on Windows.")),
    }
}

/// Applies acrylic effect to window. Works only on Windows 10 v1809 or newer
/// and Windows 11; `color` is ignored on builds with the system backdrop
/// parameter and has no effect there.
pub fn apply_acrylic(window: &mut Window, os: &OsInfo, color: Option<Color>) -> (r: Result<
    (),
    Error,
>)
    ensures
        spec_routes_to_windows(*os, old(window).handle) ==> ({
            &&& r is Ok <==> windows::spec_acrylic_supported(os.version)
            &&& final(window).backdrop == windows::spec_apply_acrylic(
                old(window).backdrop,
                os.version,
                color,
            )
            &&& r matches Err(e) ==> e is UnsupportedPlatformVersion
            &&& final(window).handle == old(window).handle
            &&& final(window).view == old(window).view
        }),
        !spec_routes_to_windows(*os, old(window).handle) ==> ({
            &&& r matches Err(e)
            &&& e matches Error::UnsupportedPlatform(m)
            &&& m@ == "\"apply_acrylic()\" is only supported on Windows."@
            &&& *final(window) == *old(window)
        }),
{
    match (os.platform, window.handle) {
        (Platform::Windows, WindowHandle::Win32(_)) => {
            windows::apply_acrylic(&mut window.backdrop, &os.version, color)
        },
        _ => Err(Error::UnsupportedPlatform("\"apply_acrylic()\" is only supported on Windows.")),
    }
}

/// Clears acrylic effect applied to window. Works only on Windows 10 v1809 or
/// newer and Windows 11; clearing a window that never had acrylic is a no-op
/// success.
pub fn clear_acrylic(window: &mut Window, os: &OsInfo) -> (r: Result<(), Error>)
    ensures
        spec_routes_to_windows(*os, old(window).handle) ==> ({
            &&& r is Ok <==> windows::spec_acrylic_supported(os.version)
            &&& final(window).backdrop == windows::spec_clear_acrylic(
                old(window).backdrop,
                os.version,
            )
            &&& r matches Err(e) ==> e is UnsupportedPlatformVersion
            &&& final(window).handle == old(window).handle
            &&& final(window).view == old(window).view
        }),
        !spec_routes_to_windows(*os, old(window).handle) ==> ({
            &&& r matches Err(e)
            &&& e matches Error::UnsupportedPlatform(m)
            &&& m@ == "\"clear_acrylic()\" is only supported on Windows."@
            &&& *final(window) == *old(window)
        }),
{
    match (os.platform, window.handle) {
        (Platform::Windows, WindowHandle::Win32(_)) => {
            windows::clear_acrylic(&mut window.backdrop, &os.version)
        },
        _ => Err(Error::UnsupportedPlatform("\"clear_acrylic()\" is only supported on Windows.")),
    }
}

/// Applies mica effect to window. Works only on Windows 11.
pub fn apply_mica(window: &mut Window, os: &OsInfo) -> (r: Result<(), Error>)
    ensures
        spec_routes_to_windows(*os, old(window).handle) ==> ({
            &&& r is Ok <==> windows::spec_mica_supported(os.version)
            &&& final(window).backdrop == windows::spec_apply_mica(old(window).backdrop, os.version)
            &&& r matches Err(e) ==> e is UnsupportedPlatformVersion
            &&& final(window).handle == old(window).handle
            &&& final(window).view == old(window).view
        }),
        !spec_routes_to_windows(*os, old(window).handle) ==> ({
            &&& r matches Err(e)
            &&& e matches Error::UnsupportedPlatform(m)
            &&& m@ == "\"apply_mica()\" is only supported on Windows."@
            &&& *final(window) == *old(window)
        }),
{
    match (os.platform, window.handle) {
        (Platform::Windows, WindowHandle::Win32(_)) => {
            windows::apply_mica(&mut window.backdrop, &os.version)
        },
        _ => Err(Error::UnsupportedPlatform("\"apply_mica()\" is only supported on Windows.")),
    }
}

/// Clears mica effect applied to window. Works only on Windows 11; clearing a
/// window that never had mica is a no-op success.
pub fn clear_mica(window: &mut Window, os: &OsInfo) -> (r: Result<(), Error>)
    ensures
        spec_routes_to_windows(*os, old(window).handle) ==> ({
            &&& r is Ok <==> windows::spec_mica_supported(os.version)
            &&& final(window).backdrop == windows::spec_clear_mica(old(window).backdrop, os.version)
            &&& r matches Err(e) ==> e is UnsupportedPlatformVersion
            &&& final(window).handle == old(window).handle
            &&& final(window).view == old(window).view
        }),
        !spec_routes_to_windows(*os, old(window).handle) ==> ({
            &&& r matches Err(e)
            &&& e matches Error::UnsupportedPlatform(m)
            &&& m@ == "\"clear_mica()\" is only supported on Windows."@
            &&& *final(window) == *old(window)
        }),
{
    match (os.platform, window.handle) {
        (Platform::Windows, WindowHandle::Win32(_)) => {
            windows::clear_mica(&mut window.backdrop, &os.version)
        },
        _ => Err(Error::UnsupportedPlatform("\"clear_mica()\" is only supported on Windows.")),
    }
}

/// Applies macOS vibrancy effect to window. Works only on macOS, on the main
/// thread, and on a window with a content view (the adapter fails fast by
/// contract on one without).
pub fn apply_vibrancy(
    window: &mut Window,
    os: &OsInfo,
    on_main_thread: bool,
    material: NSVisualEffectMaterial,
) -> (r: Result<(), Error>)
    requires
        (spec_routes_to_macos(*os, old(window).handle) && on_main_thread) ==> old(
            window,
        ).view.has_content_view,
    ensures
        spec_routes_to_macos(*os, old(window).handle) ==> ({
            &&& r is Ok <==> on_main_thread
            &&& on_main_thread ==> final(window).view == (macos::ViewState {
                vibrancy: Some(macos::spec_vibrant_view(material)),
                ..old(window).view
            })
            &&& !on_main_thread ==> *final(window) == *old(window)
            &&& r matches Err(e) ==> e is NotMainThread
            &&& final(window).handle == old(window).handle
            &&& final(window).backdrop == old(window).backdrop
        }),
        !spec_routes_to_macos(*os, old(window).handle) ==> ({
            &&& r matches Err(e)
            &&& e matches Error::UnsupportedPlatform(m)
            &&& m@ == "\"apply_vibrancy()\" is only supported on macOS."@
            &&& *final(window) == *old(window)
        }),
{
    match (os.platform, window.handle) {
        (Platform::MacOs, WindowHandle::AppKit(_)) => {
            macos::apply_vibrancy(&mut window.view, on_main_thread, material)
        },
        _ => Err(Error::UnsupportedPlatform("\"apply_vibrancy()\" is only supported on macOS.")),
    }
}

} // verus!
