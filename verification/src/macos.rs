//! The macOS adapter. Vibrancy is a translucent visual-effect subview placed
//! behind everything the application draws. The adapter models the part of the
//! window it touches: whether a content view exists and the marker effect view
//! with its configuration. The view-hierarchy calls are main-thread only, so
//! the adapter takes the main-thread predicate as a plain value and fails
//! without touching the view when it does not hold.

use vstd::prelude::*;

use crate::Error;

verus! {

/// The material catalog of the visual-effect view, mirroring the OS's own.
/// The OS-defined constant of each variant is `material_code`.
#[derive(Clone, Copy, Debug, PartialEq, Eq)]
pub enum NSVisualEffectMaterial {
    AppearanceBased,
    Light,
    Dark,
    MediumLight,
    UltraDark,
    Titlebar,
    Selection,
    Menu,
    Popover,
    Sidebar,
    HeaderView,
    Sheet,
    WindowBackground,
    HudWindow,
    FullScreenUI,
    Tooltip,
    ContentBackground,
    UnderWindowBackground,
    UnderPageBackground,
}

/// The OS-defined constant behind each material variant.
pub open spec fn spec_material_code(m: NSVisualEffectMaterial) -> u64 {
    match m {
        NSVisualEffectMaterial::AppearanceBased => 0,
        NSVisualEffectMaterial::Light => 1,
        NSVisualEffectMaterial::Dark => 2,
        NSVisualEffectMaterial::Titlebar => 3,
        NSVisualEffectMaterial::Selection => 4,
        NSVisualEffectMaterial::Menu => 5,
        NSVisualEffectMaterial::Popover => 6,
        NSVisualEffectMaterial::Sidebar => 7,
        NSVisualEffectMaterial::MediumLight => 8,
        NSVisualEffectMaterial::UltraDark => 9,
        NSVisualEffectMaterial::HeaderView => 10,
        NSVisualEffectMaterial::Sheet => 11,
        NSVisualEffectMaterial::WindowBackground => 12,
        NSVisualEffectMaterial::HudWindow => 13,
        NSVisualEffectMaterial::FullScreenUI => 15,
        NSVisualEffectMaterial::Tooltip => 17,
        NSVisualEffectMaterial::ContentBackground => 18,
        NSVisualEffectMaterial::UnderWindowBackground => 21,
        NSVisualEffectMaterial::UnderPageBackground => 22,
    }
}

pub fn material_code(m: NSVisualEffectMaterial) -> (r: u64)
    ensures
        r == spec_material_code(m),
{
    match m {
        NSVisualEffectMaterial::AppearanceBased => 0,
        NSVisualEffectMaterial::Light => 1,
        NSVisualEffectMaterial::Dark => 2,
        NSVisualEffectMaterial::Titlebar => 3,
        NSVisualEffectMaterial::Selection => 4,
        NSVisualEffectMaterial::Menu => 5,
        NSVisualEffectMaterial::Popover => 6,
        NSVisualEffectMaterial::Sidebar => 7,
        NSVisualEffectMaterial::MediumLight => 8,
        NSVisualEffectMaterial::UltraDark => 9,
        NSVisualEffectMaterial::HeaderView => 10,
        NSVisualEffectMaterial::Sheet => 11,
        NSVisualEffectMaterial::WindowBackground => 12,
        NSVisualEffectMaterial::HudWindow => 13,
        NSVisualEffectMaterial::FullScreenUI => 15,
        NSVisualEffectMaterial::Tooltip => 17,
        NSVisualEffectMaterial::ContentBackground => 18,
        NSVisualEffectMaterial::UnderWindowBackground => 21,
        NSVisualEffectMaterial::UnderPageBackground => 22,
    }
}

/// The marker visual-effect view the adapter creates or updates, with the
/// configuration it writes.
#[derive(Clone, Copy, Debug, PartialEq, Eq)]
pub struct VibrancyView {
    /// The caller-supplied material.
    pub material: NSVisualEffectMaterial,
    /// Blending mode "behind window": app content composites on top.
    pub blends_behind_window: bool,
    /// Active-appearance state follows the window.
    pub follows_window_active_state: bool,
    /// The view sits as the backmost (first) subview of the content view.
    pub backmost: bool,
}

/// The part of a window's view hierarchy the adapter touches.
#[derive(Clone, Copy, Debug, PartialEq, Eq)]
pub struct ViewState {
    /// Whether the window has a content view at all.
    pub has_content_view: bool,
    /// The vibrancy marker view, if one was ever installed.
    pub vibrancy: Option<VibrancyView>,
}

impl ViewState {
    /// The view hierarchy of a window nothing has touched: a content view with
    /// no vibrancy marker view.
    pub open spec fn spec_fresh() -> ViewState {
        ViewState { has_content_view: true, vibrancy: None }
    }

    pub fn fresh() -> (r: ViewState)
        ensures
            r == ViewState::spec_fresh(),
    {
        ViewState { has_content_view: true, vibrancy: None }
    }
}

/// The fully configured view a successful apply leaves behind, whether it was
/// created anew or an existing marker view was updated in place.
pub open spec fn spec_vibrant_view(m: NSVisualEffectMaterial) -> VibrancyView {
    VibrancyView {
        material: m,
        blends_behind_window: true,
        follows_window_active_state: true,
        backmost: true,
    }
}

/// Applies the vibrancy effect: creates the marker view, or updates its
/// material in place, and leaves it configured and backmost. Off the main
/// thread it fails without touching the view hierarchy. A window without a
/// content view is outside the contract: the adapter fails fast there rather
/// than succeed silently.
pub fn apply_vibrancy(
    view: &mut ViewState,
    on_main_thread: bool,
    material: NSVisualEffectMaterial,
) -> (r: Result<(), Error>)
    requires
        on_main_thread ==> old(view).has_content_view,
    ensures
        r is Ok <==> on_main_thread,
        on_main_thread ==> *final(view) == (ViewState {
            vibrancy: Some(spec_vibrant_view(material)),
            ..*old(view)
        }),
        !on_main_thread ==> *final(view) == *old(view),
        r matches Err(e) ==> ({
            &&& e matches Error::NotMainThread(m)
            &&& m@ == "\"apply_vibrancy()\" can only be used on the main thread."@
        }),
{
    if !on_main_thread {
        return Err(Error::NotMainThread("\"apply_vibrancy()\" can only be used on the main thread."));
    }
    view.vibrancy = Some(
        VibrancyView {
            material,
            blends_behind_window: true,
            follows_window_active_state: true,
            backmost: true,
        },
    );
    Ok(())
}

} // verus!
