use adabraka_gpui::ime::{ime_edit, ImeEdit, ImeInput};
use adabraka_gpui::ns_range::{ns_not_found, NSRange};
use adabraka_gpui::resource_profile::{AppProfile, AppResourceProfile};
use adabraka_gpui::wayland_toplevel::{
    apply_configure, geometry_dimension, toplevel_configure,
    toplevel_state_from_wire, wm_capabilities, wm_capability_from_wire, ConfigureResize,
    ToplevelState, ToplevelWindowState, WmCapability,
};
use adabraka_gpui::window::{Tiling, WindowControls};
use adabraka_gpui::wire::{extract_words, extract_words_in_order, word_from_bytes};
use adabraka_gpui::window_placement::{
    window_placement, PlacementDisplay, WindowPlacement, WindowPositionKind,
};
use adabraka_gpui::wayland_toplevel::{content_origin_insets, decoration_insets};
use adabraka_gpui::wayland_toplevel::{
    close_request, surface_configure, CloseDecision, InProgressConfigure, SurfaceConfigureActions,
    SurfaceConfigureState,
};

fn untiled() -> Tiling {
    Tiling { top: false, left: false, right: false, bottom: false }
}

#[test]
fn toplevel_wire_values_follow_xdg_shell() {
    assert_eq!(toplevel_state_from_wire(1), Some(ToplevelState::Maximized));
    assert_eq!(toplevel_state_from_wire(5), Some(ToplevelState::TiledLeft));
    assert_eq!(toplevel_state_from_wire(9), Some(ToplevelState::Suspended));
    assert_eq!(toplevel_state_from_wire(0), None);
    assert_eq!(toplevel_state_from_wire(10), None);
    assert_eq!(wm_capability_from_wire(4), Some(WmCapability::Minimize));
    assert_eq!(wm_capability_from_wire(5), None);
}

#[test]
fn configure_states_are_read_from_native_words() {
    let mut bytes = Vec::new();
    for word in [4u32, 5, 8] {
        bytes.extend_from_slice(&word.to_ne_bytes());
    }
    bytes.push(0xff);
    let words = extract_words(&bytes);
    assert_eq!(words, vec![4, 5, 8]);

    let configure = toplevel_configure(800, 600, &words);
    assert_eq!(configure.size, Some((800, 600)));
    assert!(!configure.maximized && !configure.fullscreen && !configure.resizing);
    assert_eq!(configure.tiling, Tiling { top: false, left: true, right: false, bottom: true });

    let configure = toplevel_configure(0, 600, &vec![1, 3]);
    assert_eq!(configure.size, None);
    assert!(configure.maximized && configure.resizing);
    assert_eq!(configure.tiling, Tiling::tiled());
}

#[test]
fn wm_capabilities_turn_on_the_named_controls() {
    let controls = wm_capabilities(WindowControls::none(), &vec![2, 4, 17]);
    assert_eq!(
        controls,
        WindowControls { fullscreen: false, maximize: true, minimize: true, window_menu: false }
    );
    assert_eq!(wm_capabilities(WindowControls::none(), &vec![]), WindowControls::none());
}

#[test]
fn configures_resize_the_window_as_their_state_asks() {
    let mut state = ToplevelWindowState {
        fullscreen: false,
        maximized: true,
        tiling: Tiling::tiled(),
        resize_throttle: false,
    };
    let unmaximize = toplevel_configure(640, 480, &vec![]);
    assert_eq!(apply_configure(&mut state, &unmaximize), ConfigureResize::RestoreWindowBounds);
    assert!(!state.maximized);
    assert_eq!(state.tiling, untiled());

    let resize = toplevel_configure(700, 500, &vec![3]);
    assert_eq!(apply_configure(&mut state, &resize), ConfigureResize::OuterOfConfigured);
    assert!(state.resize_throttle);
    assert_eq!(apply_configure(&mut state, &resize), ConfigureResize::Throttled);

    state.resize_throttle = false;
    let fullscreen = toplevel_configure(1920, 1080, &vec![2]);
    assert_eq!(apply_configure(&mut state, &fullscreen), ConfigureResize::Configured);
    assert!(state.fullscreen);
    let no_size = toplevel_configure(0, 0, &vec![2]);
    assert_eq!(apply_configure(&mut state, &no_size), ConfigureResize::Keep);
}

#[test]
fn geometry_is_at_least_one_pixel() {
    assert_eq!(geometry_dimension(0), 1);
    assert_eq!(geometry_dimension(-5), 1);
    assert_eq!(geometry_dimension(300), 300);
}

#[test]
fn windows_are_placed_on_the_requested_display_or_the_primary_one() {
    let ids = vec![7, 3, 7];
    assert_eq!(
        window_placement(WindowPositionKind::CenterOnDisplay(7), &ids, true),
        WindowPlacement::CenterIn(PlacementDisplay::Listed(0))
    );
    assert_eq!(
        window_placement(WindowPositionKind::CenterOnDisplay(3), &ids, false),
        WindowPlacement::CenterIn(PlacementDisplay::Listed(1))
    );
    assert_eq!(
        window_placement(WindowPositionKind::CenterOnDisplay(9), &ids, true),
        WindowPlacement::CenterIn(PlacementDisplay::Primary)
    );
    assert_eq!(
        window_placement(WindowPositionKind::CenterOnDisplay(9), &ids, false),
        WindowPlacement::Origin
    );
    assert_eq!(window_placement(WindowPositionKind::TrayCenter, &ids, false), WindowPlacement::BelowTray);
    assert_eq!(
        window_placement(WindowPositionKind::BottomLeft, &ids, true),
        WindowPlacement::Corner { right: false, bottom: true }
    );
    assert_eq!(window_placement(WindowPositionKind::TopRight, &ids, false), WindowPlacement::Origin);
}

#[test]
fn profiles_convert_to_their_budgets() {
    let desktop = AppResourceProfile::desktop();
    assert_eq!(desktop.text.line_layout_cache_max_entries, 10_000);
    assert_eq!(desktop.text.line_layout_cache_low_watermark, 5_000);
    assert_eq!(desktop.gpu.atlas_initial_size, 1024);
    assert_eq!(AppResourceProfile::utility().text.line_layout_cache_max_entries, 3_000);
    assert_eq!(AppResourceProfile::minimal().gpu.atlas_initial_size, 512);
    assert_eq!(AppResourceProfile::default(), desktop);
    assert_eq!(AppProfile::default(), AppProfile::Desktop);
    assert_eq!(AppProfile::Minimal.to_resource_profile(), AppResourceProfile::minimal());
    let custom = AppResourceProfile::utility();
    assert_eq!(AppResourceProfile::from(AppProfile::Custom(custom)), custom);
    let size = AppResourceProfile::minimal().atlas_size();
    assert_eq!((size.width, size.height), (512, 512));
}

#[test]
fn ns_ranges_round_trip() {
    assert_eq!(ns_not_found(), isize::MAX as usize);
    let invalid = NSRange::invalid();
    assert!(!invalid.is_valid());
    assert_eq!(invalid.to_range(), None);
    let range = NSRange::from_range(3, 8);
    assert_eq!(range, NSRange { location: 3, length: 5 });
    assert_eq!(range.to_range(), Some((3, 8)));
    assert_eq!(NSRange::from_range(8, 3).length, 0);
}

#[test]
fn input_method_events_become_edits() {
    assert_eq!(
        ime_edit(ImeInput::InsertText("é".to_string()), Some((1, 2))),
        Some(ImeEdit::ReplaceText { range: None, text: "é".to_string() })
    );
    assert_eq!(
        ime_edit(ImeInput::SetMarkedText("ka".to_string()), None),
        Some(ImeEdit::ReplaceAndMarkText { text: "ka".to_string() })
    );
    assert_eq!(ime_edit(ImeInput::UnmarkText, None), Some(ImeEdit::UnmarkText));
    assert_eq!(
        ime_edit(ImeInput::DeleteText, Some((4, 6))),
        Some(ImeEdit::ReplaceText { range: Some((4, 6)), text: String::new() })
    );
    assert_eq!(ime_edit(ImeInput::DeleteText, None), None);
}

#[test]
fn untiled_edges_carry_decoration_insets() {
    assert_eq!(decoration_insets(untiled()), (2, 2));
    assert_eq!(decoration_insets(Tiling::tiled()), (0, 0));
    let left_and_top = Tiling { top: true, left: true, right: false, bottom: false };
    assert_eq!(decoration_insets(left_and_top), (1, 1));
    assert_eq!(content_origin_insets(left_and_top), (0, 0));
    assert_eq!(content_origin_insets(untiled()), (1, 1));
}

#[test]
fn configure_states_skip_unknown_values() {
    let mut bytes = Vec::new();
    for word in [1u32, 42, 6, 0] {
        bytes.extend_from_slice(&word.to_ne_bytes());
    }
    bytes.extend_from_slice(&[9, 9]);
    assert_eq!(
        adabraka_gpui::wayland_toplevel::extract_states(&bytes),
        vec![ToplevelState::Maximized, ToplevelState::TiledRight]
    );
    assert!(adabraka_gpui::wayland_toplevel::extract_states(&[]).is_empty());
}

fn resizing_configure() -> InProgressConfigure {
    InProgressConfigure { size: Some((640, 480)), fullscreen: false, maximized: false, resizing: true, tiling: untiled() }
}

#[test]
fn surface_configure_promotes_controls_and_acknowledges_once_unthrottled() {
    let controls = WindowControls { fullscreen: false, maximize: true, minimize: false, window_menu: true };
    let mut state = SurfaceConfigureState {
        window_controls: WindowControls::all(),
        in_progress_window_controls: Some(controls),
        in_progress_configure: Some(resizing_configure()),
        window: ToplevelWindowState { fullscreen: false, maximized: false, tiling: untiled(), resize_throttle: false },
        acknowledged_first_configure: false,
    };
    let actions = surface_configure(&mut state, true);
    assert_eq!(
        actions,
        SurfaceConfigureActions {
            controls_changed: true,
            resize: Some(ConfigureResize::OuterOfConfigured),
            ack: true,
            request_frame: true,
        }
    );
    assert_eq!(state.window_controls, controls);
    assert_eq!(state.in_progress_window_controls, None);
    assert!(state.window.resize_throttle);

    // A second interactive resize before the next frame is throttled and
    // not acknowledged.
    state.in_progress_configure = Some(resizing_configure());
    let actions = surface_configure(&mut state, true);
    assert_eq!(
        actions,
        SurfaceConfigureActions { controls_changed: false, resize: Some(ConfigureResize::Throttled), ack: false, request_frame: false }
    );

    // Once drawn, the next configure is acknowledged without a new frame
    // request.
    state.window.resize_throttle = false;
    let actions = surface_configure(&mut state, true);
    assert_eq!(
        actions,
        SurfaceConfigureActions { controls_changed: false, resize: None, ack: true, request_frame: false }
    );
}

#[test]
fn layer_surfaces_do_not_acknowledge_xdg_configures() {
    let mut state = SurfaceConfigureState {
        window_controls: WindowControls::all(),
        in_progress_window_controls: None,
        in_progress_configure: None,
        window: ToplevelWindowState { fullscreen: false, maximized: false, tiling: untiled(), resize_throttle: false },
        acknowledged_first_configure: false,
    };
    let actions = surface_configure(&mut state, false);
    assert!(!actions.ack && !actions.request_frame);
    assert!(!state.acknowledged_first_configure);
}

#[test]
fn close_requests_follow_the_should_close_callback() {
    assert_eq!(close_request(Some(true)), CloseDecision { close: true, result: true });
    assert_eq!(close_request(Some(false)), CloseDecision { close: false, result: false });
    assert_eq!(close_request(None), CloseDecision { close: false, result: true });
}

#[test]
fn protocol_words_are_read_in_one_byte_order() {
    let bytes = [1u8, 0, 0, 0, 0, 0, 0, 2, 9];
    assert_eq!(extract_words_in_order(&bytes, true), vec![1, 0x0200_0000]);
    assert_eq!(extract_words_in_order(&bytes, false), vec![0x0100_0000, 2]);
    let native = extract_words(&bytes);
    assert!(native == vec![1, 0x0200_0000] || native == vec![0x0100_0000, 2]);
    assert_eq!(native, vec![u32::from_ne_bytes([1, 0, 0, 0]), u32::from_ne_bytes([0, 0, 0, 2])]);
    assert_eq!(word_from_bytes(0x78, 0x56, 0x34, 0x12, true), 0x1234_5678);
    assert_eq!(word_from_bytes(0x78, 0x56, 0x34, 0x12, false), 0x7856_3412);
}
