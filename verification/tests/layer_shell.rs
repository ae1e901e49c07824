use adabraka_gpui::layer_shell::{
    configure_ext_layer_surface, configure_layer_surface_state, configure_wlr_layer_surface,
    LayerSurfaceOptions, ANCHOR_RIGHT, ANCHOR_TOP,
};
use adabraka_gpui::layer_shell::{
    find_output_for_params, is_layer_shell_available, layer_configure_size,
    layer_shell_options_source, layer_surface_dimension, select_layer_shell_protocol,
    ExtKeyboardInteractivity, ExtLayer, LayerShellAnchor, LayerShellExclusiveZone,
    LayerShellKeyboardInteractivity, LayerShellLayer, LayerShellOptionsSource, LayerShellProtocol,
    LayerShellProtocolPreference, OutputCandidate, Size, WlrKeyboardInteractivity, WlrLayer,
};
use adabraka_gpui::window::WindowKind;

fn size(width: f32, height: f32) -> Size<f32> {
    Size { width, height }
}

fn px(value: i32) -> f32 {
    value as f32
}

#[test]
fn layer_configure_size_keeps_current_zero_dimensions() {
    let current_size = size(320.0, 240.0);

    assert_eq!(layer_configure_size(current_size, 0, 0, px), current_size);
    assert_eq!(layer_configure_size(current_size, 640, 0, px), size(640.0, 240.0));
    assert_eq!(layer_configure_size(current_size, 0, 480, px), size(320.0, 480.0));
    assert_eq!(layer_configure_size(current_size, 640, 480, px), size(640.0, 480.0));
}

#[test]
fn layer_exclusive_zone_maps_to_wayland_values() {
    assert_eq!(LayerShellExclusiveZone::NoZone.to_wayland(), 0);
    assert_eq!(LayerShellExclusiveZone::Auto.to_wayland(), -1);
    assert_eq!(LayerShellExclusiveZone::Pixels(24).to_wayland(), 24);
}

#[test]
fn layer_keyboard_interactivity_maps_to_wlr_protocol() {
    assert_eq!(LayerShellKeyboardInteractivity::NoFocus.to_wlr(), WlrKeyboardInteractivity::NoFocus);
    assert_eq!(
        LayerShellKeyboardInteractivity::OnDemand.to_wlr(),
        WlrKeyboardInteractivity::OnDemand
    );
    assert_eq!(
        LayerShellKeyboardInteractivity::Exclusive.to_wlr(),
        WlrKeyboardInteractivity::Exclusive
    );
}

#[test]
fn layer_keyboard_interactivity_maps_to_ext_protocol_limits() {
    assert_eq!(
        LayerShellKeyboardInteractivity::NoFocus.to_ext(),
        Some(ExtKeyboardInteractivity::NoFocus)
    );
    assert_eq!(
        LayerShellKeyboardInteractivity::OnDemand.to_ext(),
        Some(ExtKeyboardInteractivity::OnDemand)
    );
    assert_eq!(LayerShellKeyboardInteractivity::Exclusive.to_ext(), None);
}

#[test]
fn layer_values_map_to_both_wayland_protocols() {
    assert_eq!(LayerShellLayer::Background.to_wlr(), WlrLayer::Background);
    assert_eq!(LayerShellLayer::Bottom.to_ext(), ExtLayer::Bottom);
    assert_eq!(LayerShellLayer::Top.to_wlr(), WlrLayer::Top);
    assert_eq!(LayerShellLayer::Overlay.to_ext(), ExtLayer::Overlay);
}

#[test]
fn protocol_wire_values_follow_the_protocol_definitions() {
    assert_eq!(WlrLayer::Background.wire_value(), 0);
    assert_eq!(WlrLayer::Overlay.wire_value(), 3);
    assert_eq!(ExtLayer::Top.wire_value(), 2);
    assert_eq!(WlrKeyboardInteractivity::Exclusive.wire_value(), 1);
    assert_eq!(WlrKeyboardInteractivity::OnDemand.wire_value(), 2);
    assert_eq!(ExtKeyboardInteractivity::NoFocus.wire_value(), 0);
    assert_eq!(
        LayerShellKeyboardInteractivity::Exclusive.to_ext_or_on_demand(),
        ExtKeyboardInteractivity::OnDemand
    );
    assert_eq!(LayerShellAnchor::from_bits(0xff).to_wire(), 0xf);
    assert_eq!(layer_surface_dimension(0), 1);
    assert_eq!(layer_surface_dimension(-5), 1);
    assert_eq!(layer_surface_dimension(300), 300);
}

#[test]
fn layer_shell_availability_depends_on_the_preferred_protocol() {
    assert!(is_layer_shell_available(LayerShellProtocolPreference::ExtThenWlr, true, false));
    assert!(is_layer_shell_available(LayerShellProtocolPreference::ExtThenWlr, false, true));
    assert!(!is_layer_shell_available(LayerShellProtocolPreference::Wlr, true, false));
    assert_eq!(
        select_layer_shell_protocol(LayerShellProtocolPreference::ExtThenWlr, true, true),
        Some(LayerShellProtocol::Ext)
    );
    assert_eq!(
        select_layer_shell_protocol(LayerShellProtocolPreference::Wlr, true, true),
        Some(LayerShellProtocol::Wlr)
    );
    assert_eq!(select_layer_shell_protocol(LayerShellProtocolPreference::ExtThenWlr, false, false), None);
}

#[test]
fn overlay_windows_become_layer_surfaces_when_available() {
    assert_eq!(
        layer_shell_options_source(None, WindowKind::Overlay, Some(1), true, false),
        Some(LayerShellOptionsSource::OverlayOnOutput(1))
    );
    assert_eq!(
        layer_shell_options_source(None, WindowKind::Overlay, None, false, true),
        Some(LayerShellOptionsSource::OverlayDefault)
    );
    assert_eq!(layer_shell_options_source(None, WindowKind::Normal, Some(0), true, true), None);
    assert_eq!(layer_shell_options_source(None, WindowKind::Overlay, Some(0), false, false), None);
    assert_eq!(
        layer_shell_options_source(
            Some(LayerShellProtocolPreference::Wlr),
            WindowKind::Normal,
            None,
            true,
            false
        ),
        None
    );
    assert_eq!(
        layer_shell_options_source(
            Some(LayerShellProtocolPreference::Wlr),
            WindowKind::PopUp,
            None,
            false,
            true
        ),
        Some(LayerShellOptionsSource::Requested)
    );
}

#[test]
fn outputs_are_found_by_id_then_by_center_then_first() {
    let outputs = vec![
        OutputCandidate { display_id: 7, contains_window_center: false },
        OutputCandidate { display_id: 9, contains_window_center: true },
        OutputCandidate { display_id: 11, contains_window_center: true },
    ];
    assert_eq!(find_output_for_params(Some(11), &outputs), Some(2));
    assert_eq!(find_output_for_params(Some(42), &outputs), Some(1));
    assert_eq!(find_output_for_params(None, &outputs), Some(1));
    let none_contains = vec![
        OutputCandidate { display_id: 7, contains_window_center: false },
        OutputCandidate { display_id: 9, contains_window_center: false },
    ];
    assert_eq!(find_output_for_params(None, &none_contains), Some(0));
    assert_eq!(find_output_for_params(Some(7), &Vec::new()), None);
}

fn surface_options(keyboard_interactivity: LayerShellKeyboardInteractivity) -> LayerSurfaceOptions {
    LayerSurfaceOptions {
        layer: LayerShellLayer::Overlay,
        anchor: LayerShellAnchor::from_bits(ANCHOR_TOP | ANCHOR_RIGHT | 0x40),
        margin_top: 8,
        margin_right: 12,
        margin_bottom: 0,
        margin_left: -4,
        exclusive_zone: LayerShellExclusiveZone::Auto,
        keyboard_interactivity,
    }
}

#[test]
fn layer_surfaces_are_configured_with_protocol_values() {
    let options = surface_options(LayerShellKeyboardInteractivity::Exclusive);
    let state = configure_layer_surface_state(&options, 0, 240);
    assert_eq!((state.width, state.height), (1, 240));
    assert_eq!(state.anchor, ANCHOR_TOP | ANCHOR_RIGHT | 0x40);
    assert_eq!(
        (state.margin_top, state.margin_right, state.margin_bottom, state.margin_left),
        (8, 12, 0, -4)
    );
    assert_eq!(state.exclusive_zone, -1);

    let ext = configure_ext_layer_surface(&options, 320, -5);
    assert_eq!(ext.layer, Some(3));
    assert_eq!((ext.width, ext.height), (320, 1));
    assert_eq!(ext.anchor, ANCHOR_TOP | ANCHOR_RIGHT);
    assert_eq!(ext.keyboard_interactivity, 2);

    let wlr = configure_wlr_layer_surface(&options, 320, 240);
    assert_eq!(wlr.layer, None);
    assert_eq!(wlr.keyboard_interactivity, 1);
    assert_eq!(wlr.anchor, ANCHOR_TOP | ANCHOR_RIGHT);

    let no_focus = surface_options(LayerShellKeyboardInteractivity::NoFocus);
    assert_eq!(configure_ext_layer_surface(&no_focus, 1, 1).keyboard_interactivity, 0);
    assert_eq!(configure_wlr_layer_surface(&no_focus, 1, 1).keyboard_interactivity, 0);
}
