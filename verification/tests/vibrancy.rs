use window_vibrancy::macos::material_code;
use window_vibrancy::windows::{packed_color, Accent, Backdrop, SystemBackdrop};
use window_vibrancy::{
    apply_acrylic, apply_blur, apply_mica, apply_vibrancy, clear_acrylic, clear_blur, clear_mica,
    window_from_raw, Error, NSVisualEffectMaterial, OsInfo, OsVersion, Platform, Window,
    WindowHandle,
};

fn windows_os(major: u32, minor: u32, build: u32) -> OsInfo {
    OsInfo { platform: Platform::Windows, version: OsVersion { major, minor, build } }
}

fn macos_os() -> OsInfo {
    OsInfo { platform: Platform::MacOs, version: OsVersion { major: 13, minor: 0, build: 0 } }
}

fn win_window() -> Window {
    Window::new(WindowHandle::Win32(0x1234))
}

fn mac_window() -> Window {
    Window::new(WindowHandle::AppKit(0x5678))
}

fn clean(b: &Backdrop) -> bool {
    !b.blur_behind
        && b.accent == Accent::Disabled
        && !b.mica_effect
        && matches!(b.backdrop_type, SystemBackdrop::Auto | SystemBackdrop::Disabled)
}

#[test]
fn windows_ops_reject_appkit_handle() {
    let os = windows_os(10, 0, 22621);
    let mut w = mac_window();
    assert!(matches!(apply_blur(&mut w, &os, None), Err(Error::UnsupportedPlatform(_))));
    assert!(matches!(clear_blur(&mut w, &os), Err(Error::UnsupportedPlatform(_))));
    assert!(matches!(apply_acrylic(&mut w, &os, None), Err(Error::UnsupportedPlatform(_))));
    assert!(matches!(clear_acrylic(&mut w, &os), Err(Error::UnsupportedPlatform(_))));
    assert!(matches!(apply_mica(&mut w, &os), Err(Error::UnsupportedPlatform(_))));
    assert!(matches!(clear_mica(&mut w, &os), Err(Error::UnsupportedPlatform(_))));
    assert!(clean(&w.backdrop));
}

#[test]
fn windows_ops_reject_macos_host() {
    let os = macos_os();
    let mut w = win_window();
    assert!(matches!(apply_blur(&mut w, &os, None), Err(Error::UnsupportedPlatform(_))));
    assert!(matches!(apply_mica(&mut w, &os), Err(Error::UnsupportedPlatform(_))));
}

#[test]
fn vibrancy_rejects_win32_handle() {
    let os = macos_os();
    let mut w = win_window();
    let r = apply_vibrancy(&mut w, &os, true, NSVisualEffectMaterial::HudWindow);
    assert!(matches!(r, Err(Error::UnsupportedPlatform(_))));
    assert!(w.view.vibrancy.is_none());
}

#[test]
fn vibrancy_rejects_windows_host() {
    let os = windows_os(10, 0, 22621);
    let mut w = mac_window();
    let r = apply_vibrancy(&mut w, &os, true, NSVisualEffectMaterial::Sidebar);
    assert!(matches!(r, Err(Error::UnsupportedPlatform(_))));
    assert!(w.view.vibrancy.is_none());
}

#[test]
fn unsupported_platform_message_names_the_operation() {
    let os = macos_os();
    let mut w = mac_window();
    let r = apply_blur(&mut w, &os, None);
    let e = r.unwrap_err();
    assert_eq!(e.message(), "\"apply_blur()\" is only supported on Windows.");
}

#[test]
fn acrylic_below_modern_build_is_version_error() {
    let os = windows_os(10, 0, 17000);
    let mut w = win_window();
    let r = apply_acrylic(&mut w, &os, None);
    assert!(matches!(r, Err(Error::UnsupportedPlatformVersion(_))));
    assert!(clean(&w.backdrop));
}

#[test]
fn acrylic_at_modern_threshold_sets_accent() {
    let os = windows_os(10, 0, 17763);
    let mut w = win_window();
    assert!(apply_acrylic(&mut w, &os, Some((18, 18, 18, 125))).is_ok());
    assert_eq!(w.backdrop.accent, Accent::AcrylicBlurBehind(2098336274));
}

#[test]
fn acrylic_default_color_is_translucent_gray_black() {
    let os = windows_os(10, 0, 20000);
    let mut w = win_window();
    assert!(apply_acrylic(&mut w, &os, None).is_ok());
    assert_eq!(w.backdrop.accent, Accent::AcrylicBlurBehind(packed_color((18, 18, 18, 125))));
}

#[test]
fn acrylic_on_new_build_uses_backdrop_parameter() {
    let os = windows_os(10, 0, 22621);
    let mut w = win_window();
    assert!(apply_acrylic(&mut w, &os, Some((1, 2, 3, 4))).is_ok());
    assert_eq!(w.backdrop.backdrop_type, SystemBackdrop::TransientWindow);
    assert_eq!(w.backdrop.accent, Accent::Disabled);
}

#[test]
fn mica_below_windows_11_is_version_error() {
    let os = windows_os(10, 0, 21999);
    let mut w = win_window();
    let r = apply_mica(&mut w, &os);
    assert!(matches!(r, Err(Error::UnsupportedPlatformVersion(_))));
    assert!(clean(&w.backdrop));
}

#[test]
fn mica_on_early_windows_11_sets_legacy_flag() {
    let os = windows_os(10, 0, 22000);
    let mut w = win_window();
    assert!(apply_mica(&mut w, &os).is_ok());
    assert!(w.backdrop.mica_effect);
    assert_eq!(w.backdrop.backdrop_type, SystemBackdrop::Auto);
}

#[test]
fn mica_on_new_build_uses_backdrop_parameter() {
    let os = windows_os(10, 0, 22621);
    let mut w = win_window();
    assert!(apply_mica(&mut w, &os).is_ok());
    assert_eq!(w.backdrop.backdrop_type, SystemBackdrop::MainWindow);
    assert!(!w.backdrop.mica_effect);
}

#[test]
fn blur_on_windows_7_sets_legacy_flag_and_ignores_color() {
    let os = windows_os(6, 1, 7601);
    let mut w = win_window();
    assert!(apply_blur(&mut w, &os, Some((18, 18, 18, 125))).is_ok());
    assert!(w.backdrop.blur_behind);
    assert_eq!(w.backdrop.accent, Accent::Disabled);
}

#[test]
fn blur_between_windows_7_and_v1809_is_version_error() {
    let os = windows_os(10, 0, 15063);
    let mut w = win_window();
    let r = apply_blur(&mut w, &os, None);
    assert!(matches!(r, Err(Error::UnsupportedPlatformVersion(_))));
    assert!(clean(&w.backdrop));
}

#[test]
fn blur_packs_color_in_documented_channel_order() {
    let os = windows_os(10, 0, 17763);
    let mut w = win_window();
    assert!(apply_blur(&mut w, &os, Some((18, 18, 18, 125))).is_ok());
    match w.backdrop.accent {
        Accent::BlurBehind(g) => {
            assert_eq!(g, 2098336274);
            assert_eq!(g.to_le_bytes(), [18, 18, 18, 125]);
        }
        other => panic!("unexpected accent {:?}", other),
    }
}

#[test]
fn packed_color_exact_bytes() {
    let g = packed_color((18, 18, 18, 125));
    assert_eq!(g, 2098336274);
    assert_eq!(g.to_le_bytes(), [18, 18, 18, 125]);
    assert_eq!(packed_color((0, 0, 0, 0)), 0);
    assert_eq!(packed_color((255, 255, 255, 255)), u32::MAX);
    assert_eq!(packed_color((1, 0, 0, 0)), 1);
    assert_eq!(packed_color((0, 0, 0, 1)), 0x0100_0000);
}

#[test]
fn blur_default_color_is_transparent_black() {
    let os = windows_os(10, 0, 17763);
    let mut w = win_window();
    assert!(apply_blur(&mut w, &os, None).is_ok());
    assert_eq!(w.backdrop.accent, Accent::BlurBehind(0));
}

#[test]
fn blur_apply_then_clear_leaves_nothing_set() {
    for build in [7601u32, 17763, 22000, 22621] {
        let os = if build == 7601 {
            windows_os(6, 1, build)
        } else {
            windows_os(10, 0, build)
        };
        let mut w = win_window();
        assert!(apply_blur(&mut w, &os, Some((18, 18, 18, 125))).is_ok());
        assert!(clear_blur(&mut w, &os).is_ok());
        assert!(clean(&w.backdrop));
    }
}

#[test]
fn acrylic_apply_then_clear_leaves_nothing_set() {
    for build in [17763u32, 22000, 22621] {
        let os = windows_os(10, 0, build);
        let mut w = win_window();
        assert!(apply_acrylic(&mut w, &os, Some((18, 18, 18, 125))).is_ok());
        assert!(clear_acrylic(&mut w, &os).is_ok());
        assert!(clean(&w.backdrop));
    }
}

#[test]
fn mica_apply_then_clear_leaves_nothing_set() {
    for build in [22000u32, 22621] {
        let os = windows_os(10, 0, build);
        let mut w = win_window();
        assert!(apply_mica(&mut w, &os).is_ok());
        assert!(clear_mica(&mut w, &os).is_ok());
        assert!(clean(&w.backdrop));
    }
}

#[test]
fn clear_blur_on_untouched_window_is_ok() {
    let os = windows_os(10, 0, 19045);
    let mut w = win_window();
    assert!(clear_blur(&mut w, &os).is_ok());
    assert!(clean(&w.backdrop));
}

#[test]
fn clear_acrylic_and_mica_on_untouched_window_are_ok() {
    let os = windows_os(10, 0, 22621);
    let mut w = win_window();
    assert!(clear_acrylic(&mut w, &os).is_ok());
    assert!(clear_mica(&mut w, &os).is_ok());
    assert!(clean(&w.backdrop));
}

#[test]
fn mica_then_acrylic_leaves_acrylic_only() {
    for build in [22000u32, 22621] {
        let os = windows_os(10, 0, build);
        let mut w = win_window();
        assert!(apply_mica(&mut w, &os).is_ok());
        assert!(apply_acrylic(&mut w, &os, None).is_ok());
        let b = &w.backdrop;
        let acrylic = matches!(b.accent, Accent::AcrylicBlurBehind(_))
            || b.backdrop_type == SystemBackdrop::TransientWindow;
        let mica = b.mica_effect || b.backdrop_type == SystemBackdrop::MainWindow;
        assert!(acrylic && !mica, "build {}: {:?}", build, b);
    }
}

#[test]
fn acrylic_then_mica_leaves_mica_only() {
    for build in [22000u32, 22621] {
        let os = windows_os(10, 0, build);
        let mut w = win_window();
        assert!(apply_acrylic(&mut w, &os, None).is_ok());
        assert!(apply_mica(&mut w, &os).is_ok());
        let b = &w.backdrop;
        let acrylic = matches!(b.accent, Accent::AcrylicBlurBehind(_))
            || b.backdrop_type == SystemBackdrop::TransientWindow;
        let mica = b.mica_effect || b.backdrop_type == SystemBackdrop::MainWindow;
        assert!(mica && !acrylic, "build {}: {:?}", build, b);
    }
}

#[test]
fn vibrancy_off_main_thread_leaves_view_untouched() {
    let os = macos_os();
    let mut w = mac_window();
    let r = apply_vibrancy(&mut w, &os, false, NSVisualEffectMaterial::Sidebar);
    assert!(matches!(r, Err(Error::NotMainThread(_))));
    assert!(w.view.vibrancy.is_none());
    let e = r.unwrap_err();
    assert_eq!(e.message(), "\"apply_vibrancy()\" can only be used on the main thread.");
}

#[test]
fn vibrancy_on_main_thread_installs_configured_view() {
    let os = macos_os();
    let mut w = mac_window();
    assert!(apply_vibrancy(&mut w, &os, true, NSVisualEffectMaterial::HudWindow).is_ok());
    let v = w.view.vibrancy.expect("vibrancy view installed");
    assert_eq!(v.material, NSVisualEffectMaterial::HudWindow);
    assert!(v.blends_behind_window);
    assert!(v.follows_window_active_state);
    assert!(v.backmost);
}

#[test]
fn vibrancy_updates_material_in_place() {
    let os = macos_os();
    let mut w = mac_window();
    assert!(apply_vibrancy(&mut w, &os, true, NSVisualEffectMaterial::Dark).is_ok());
    assert!(apply_vibrancy(&mut w, &os, true, NSVisualEffectMaterial::Menu).is_ok());
    let v = w.view.vibrancy.expect("vibrancy view installed");
    assert_eq!(v.material, NSVisualEffectMaterial::Menu);
    assert!(v.backmost);
}

#[test]
fn window_from_raw_keeps_the_platform_tag() {
    let raw_win = raw_window_handle::RawWindowHandle::Win32(
        raw_window_handle::Win32WindowHandle::empty(),
    );
    let w = window_from_raw(&raw_win);
    assert!(matches!(w.handle, WindowHandle::Win32(0)));
    assert!(clean(&w.backdrop));
    assert!(w.view.has_content_view);
    assert!(w.view.vibrancy.is_none());

    let raw_mac = raw_window_handle::RawWindowHandle::AppKit(
        raw_window_handle::AppKitWindowHandle::empty(),
    );
    assert!(matches!(window_from_raw(&raw_mac).handle, WindowHandle::AppKit(0)));

    let raw_x = raw_window_handle::RawWindowHandle::Xlib(
        raw_window_handle::XlibWindowHandle::empty(),
    );
    assert!(matches!(window_from_raw(&raw_x).handle, WindowHandle::Other));
}

#[test]
fn material_codes_match_the_os_catalog() {
    assert_eq!(material_code(NSVisualEffectMaterial::AppearanceBased), 0);
    assert_eq!(material_code(NSVisualEffectMaterial::Light), 1);
    assert_eq!(material_code(NSVisualEffectMaterial::Dark), 2);
    assert_eq!(material_code(NSVisualEffectMaterial::Titlebar), 3);
    assert_eq!(material_code(NSVisualEffectMaterial::Sidebar), 7);
    assert_eq!(material_code(NSVisualEffectMaterial::MediumLight), 8);
    assert_eq!(material_code(NSVisualEffectMaterial::UltraDark), 9);
    assert_eq!(material_code(NSVisualEffectMaterial::HudWindow), 13);
    assert_eq!(material_code(NSVisualEffectMaterial::FullScreenUI), 15);
    assert_eq!(material_code(NSVisualEffectMaterial::Tooltip), 17);
    assert_eq!(material_code(NSVisualEffectMaterial::UnderPageBackground), 22);
}

#[test]
fn version_error_messages_name_the_operation() {
    let mut w = win_window();
    let os = windows_os(10, 0, 10240);
    let e = apply_acrylic(&mut w, &os, None).unwrap_err();
    assert_eq!(
        e.message(),
        "\"apply_acrylic()\" is only supported on Windows 10 v1809 or newer and Windows 11."
    );
    let e = apply_mica(&mut w, &os).unwrap_err();
    assert_eq!(e.message(), "\"apply_mica()\" is only supported on Windows 11.");
}
