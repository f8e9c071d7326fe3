use dust::settings::{HardwareAcceleration, SurfaceSettings, WindowIcon, WindowSettings};

#[test]
fn surface_settings_default() {
    let s = SurfaceSettings::default();
    assert!(s.vsync);
    assert_eq!(s.depth_buffer, 24);
    assert_eq!(s.stencil_buffer, 0);
    assert_eq!(s.multisamples, 4);
    assert_eq!(s.hardware_acceleration, HardwareAcceleration::Preferred);
}

#[test]
fn window_settings_default() {
    let w = WindowSettings::default();
    assert_eq!(w.title, "");
    assert_eq!(w.min_size, (2, 2));
    assert_eq!(w.max_size, None);
    assert!(!w.borderless);
    assert!(w.icon.is_none());
    assert_eq!(w.surface_settings, SurfaceSettings::default());
    assert_eq!(w.multisamples, 4);
}

#[test]
fn window_settings_reach_surface_settings() {
    let mut w = WindowSettings::default();
    w.vsync = false;
    w.multisamples = 8;
    assert!(!w.surface().vsync);
    assert_eq!(w.surface_settings.multisamples, 8);
    assert_eq!(w.min_size, (2, 2));
}

#[test]
fn window_icons_are_equal_by_path() {
    let a = WindowIcon::new(vec![0, 0, 0, 255], 1, 1, "icon.png".to_string());
    let b = WindowIcon::new(vec![255, 255, 255, 255], 1, 1, "icon.png".to_string());
    let c = WindowIcon::new(vec![0, 0, 0, 255], 1, 1, "other.png".to_string());
    assert!(a == b);
    assert!(a != c);
    assert_eq!(a.path(), "icon.png");
    assert_eq!(a.size(), (1, 1));
    assert_eq!(a.rgba(), &vec![0, 0, 0, 255]);
}

#[test]
fn window_icon_from_parts() {
    let icon = WindowIcon::from((vec![1, 2, 3, 4], 1, 1, "a.png".to_string()));
    assert_eq!(icon.path(), "a.png");
    assert_eq!(icon.rgba(), &vec![1, 2, 3, 4]);
    assert!(icon == WindowIcon::new(vec![], 0, 0, "a.png".to_string()));
}
