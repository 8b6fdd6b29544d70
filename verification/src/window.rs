//! The window model. A caller owns a native window somewhere; what the
//! dispatcher reads of it is the platform tag of its raw handle, and what the
//! adapters read and write are the compositor attributes the OS retains for
//! it. Both are gathered here as plain values. The raw handle union of the
//! windowing layer is reduced to the library's own tagged type at this
//! boundary.

use vstd::prelude::*;

use crate::macos::ViewState;
use crate::windows::Backdrop;

verus! {

/// A platform-tagged native window handle, reduced to plain values: the
/// variant tag, and the native pointer as an address.
#[derive(Clone, Copy, Debug, PartialEq, Eq)]
pub enum WindowHandle {
    /// A Windows window: the `HWND` as an address.
    Win32(usize),
    /// An AppKit window: the `NSWindow` pointer as an address.
    AppKit(usize),
    /// A handle of any other windowing system: no adapter accepts it.
    Other,
}

/// A window as the library models it: the handle the caller supplied, and the
/// state the OS retains for the window and the adapters read and write.
#[derive(Clone, Copy, Debug)]
pub struct Window {
    /// The platform-tagged handle.
    pub handle: WindowHandle,
    /// The Windows compositor attributes of the window.
    pub backdrop: Backdrop,
    /// The part of the AppKit view hierarchy the vibrancy adapter touches.
    pub view: ViewState,
}

impl Window {
    /// A model of a window nothing has touched: the given handle, no backdrop
    /// attribute set, a content view without a vibrancy view.
    pub fn new(handle: WindowHandle) -> (w: Window)
        ensures
            w.handle == handle,
            w.backdrop == Backdrop::spec_clean(),
            w.view == ViewState::spec_fresh(),
    {
        Window { handle, backdrop: Backdrop::clean(), view: ViewState::fresh() }
    }
}

#[verifier::external_type_specification]
#[verifier::external_body]
pub struct ExRawWindowHandle(raw_window_handle::RawWindowHandle);

/// Relies on `raw_window_handle::RawWindowHandle`: the match tells its
/// variants apart and reads the native pointer of the `Win32` and `AppKit`
/// variants as an address; every other variant becomes `Other`. The raw union
/// is opaque here, so nothing more can be stated of the mapping.
#[verifier::external_body]
fn handle_kind(raw: &raw_window_handle::RawWindowHandle) -> WindowHandle {
    match raw {
        raw_window_handle::RawWindowHandle::Win32(h) => WindowHandle::Win32(h.hwnd as usize),
        raw_window_handle::RawWindowHandle::AppKit(h) => WindowHandle::AppKit(h.ns_window as usize),
        _ => WindowHandle::Other,
    }
}

/// The model of a window the windowing layer hands over by its raw handle:
/// the handle's tag and address, with nothing applied yet.
pub fn window_from_raw(raw: &raw_window_handle::RawWindowHandle) -> (w: Window)
    ensures
        w.backdrop == Backdrop::spec_clean(),
        w.view == ViewState::spec_fresh(),
{
    Window::new(handle_kind(raw))
}

} // verus!
