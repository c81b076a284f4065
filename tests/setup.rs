use winit_backend::{
    CreationError, EventRecorder, GlAttributes, GlProfile, NativeDisplay, Robustness,
    WinitInputBackend, init_from_builder, init_from_builder_with_gl_attr,
    pixel_format_requirements, resolve_native,
};

#[test]
fn x11_is_preferred() {
    assert_eq!(
        resolve_native(Some((0x1000, 42)), Some((0x2000, 0x3000))),
        Ok(NativeDisplay::X11 { display: 0x1000, window: 42 })
    );
}

#[test]
fn wayland_when_no_x11() {
    assert_eq!(
        resolve_native(None, Some((0x2000, 0x3000))),
        Ok(NativeDisplay::Wayland { display: 0x2000, surface: 0x3000 })
    );
}

#[test]
fn nothing_resolvable_is_not_supported() {
    assert_eq!(resolve_native(None, None), Err(CreationError::NotSupported));
    let r = init_from_builder::<EventRecorder>(None, None, (640, 480), false);
    assert!(matches!(r, Err(CreationError::NotSupported)));
}

#[test]
fn pixel_format_is_fixed() {
    let p = pixel_format_requirements();
    assert_eq!(p.hardware_accelerated, Some(true));
    assert_eq!(p.color_bits, Some(24));
    assert_eq!(p.alpha_bits, Some(8));
    assert_eq!(p.depth_bits, None);
}

#[test]
fn wayland_setup_sizes_the_surface() {
    let attrs = GlAttributes {
        version: Some((3, 3)),
        profile: Some(GlProfile::Core),
        debug: true,
        robustness: Robustness::RobustLoseContextOnReset,
        vsync: false,
    };
    let (req, backend) =
        match init_from_builder_with_gl_attr::<EventRecorder>(None, Some((1, 2)), (640, 480), attrs) {
            Ok(pair) => pair,
            Err(_) => panic!("expected a setup"),
        };
    assert_eq!(req.native, NativeDisplay::Wayland { display: 1, surface: 2 });
    assert_eq!(req.attributes, attrs);
    assert_eq!(req.surface_size, Some((640, 480)));
    assert_eq!(req.pixel_format, pixel_format_requirements());
    assert_eq!(backend.time_counter(), 0);
    assert_eq!(backend.key_counter(), 0);
    assert_eq!(backend.window_size(), Some((640, 480)));
}

#[test]
fn x11_setup_uses_default_attributes() {
    let (req, mut backend): (_, WinitInputBackend<EventRecorder>) =
        match init_from_builder(Some((7, 8)), None, (320, 200), false) {
            Ok(pair) => pair,
            Err(_) => panic!("expected a setup"),
        };
    assert_eq!(req.native, NativeDisplay::X11 { display: 7, window: 8 });
    assert_eq!(req.surface_size, None);
    assert_eq!(req.attributes, GlAttributes::default_for(false));
    assert_eq!(req.attributes.robustness, Robustness::NotRobust);
    assert!(req.attributes.vsync);
    assert_eq!(req.attributes.version, None);
    backend.set_handler(EventRecorder::new());
    assert!(backend.get_handler().is_some());
}
