use adabraka_gpui::window::{Decorations, Tiling, WindowBackgroundAppearance, WindowDecorations};
use adabraka_gpui::x11_hints::EdgeConstraints;
use adabraka_gpui::x11_state::{
    edge_constraints_from_property, find_visuals, net_wm_icon_data, net_wm_state,
    net_wm_state_from_words, net_wm_state_message, wm_class_data, x11_is_transparent,
    DepthVisuals, NetWmState, NetWmStateAtoms, ScreenVisuals, Visual, VisualType,
    WmHintPropertyState, X11DecorationState,
};
use adabraka_gpui::window::WindowKind;
use adabraka_gpui::x11_state::{
    creation_origin, creation_result, initial_window_bounds, kind_properties, position_after_geometry, window_visual,
    x11_screen_index, setup_cleanup, DeviceBounds, KindProperties, SetupCleanup, VisualSet,
    };

const ATOMS: NetWmStateAtoms = NetWmStateAtoms {
    focused: 100,
    fullscreen: 101,
    maximized_vert: 102,
    maximized_horz: 103,
    hidden: 104,
};

#[test]
fn net_wm_state_sets_the_named_flags_only() {
    let state = net_wm_state_from_words(&vec![103, 7, 100], &ATOMS);
    assert_eq!(
        state,
        NetWmState {
            active: true,
            fullscreen: false,
            maximized_vertical: false,
            maximized_horizontal: true,
            hidden: false,
        }
    );
    let mut bytes = Vec::new();
    for atom in [101u32, 104] {
        bytes.extend_from_slice(&atom.to_ne_bytes());
    }
    let state = net_wm_state(&bytes, &ATOMS);
    assert!(state.fullscreen && state.hidden && !state.active);
    assert_eq!(net_wm_state(&[], &ATOMS), net_wm_state_from_words(&vec![], &ATOMS));
}

#[test]
fn edge_constraints_come_from_the_first_word() {
    assert_eq!(edge_constraints_from_property(0, &[]), None);
    let value = 0b0101_0101u32.to_ne_bytes();
    let constraints = edge_constraints_from_property(1, &value).unwrap();
    assert_eq!(constraints, EdgeConstraints::from_atom(0b0101_0101));
    assert!(constraints.top_tiled && constraints.left_tiled && !constraints.top_resizable);
}

fn decoration_state() -> X11DecorationState {
    X11DecorationState {
        client_side_decorations_supported: true,
        decorations: WindowDecorations::Client,
        fullscreen: false,
        edge_constraints: None,
        maximized_vertical: true,
        maximized_horizontal: false,
    }
}

#[test]
fn client_decorations_follow_the_window_manager_state() {
    let state = decoration_state();
    assert_eq!(
        state.window_decorations(),
        Decorations::Client { tiling: Tiling { top: true, left: false, right: false, bottom: true } }
    );
    let fullscreen = X11DecorationState { fullscreen: true, ..state };
    assert_eq!(fullscreen.window_decorations(), Decorations::Client { tiling: Tiling::tiled() });
    let constrained = X11DecorationState {
        edge_constraints: Some(EdgeConstraints::from_atom(1 << 2)),
        ..state
    };
    assert_eq!(
        constrained.window_decorations(),
        Decorations::Client { tiling: Tiling { top: false, left: false, right: true, bottom: false } }
    );
    let no_compositor = X11DecorationState { client_side_decorations_supported: false, ..state };
    assert_eq!(no_compositor.window_decorations(), Decorations::Server);
    assert_eq!(no_compositor.effective_decorations(WindowDecorations::Client), WindowDecorations::Server);
    assert_eq!(state.effective_decorations(WindowDecorations::Client), WindowDecorations::Client);
    let server = X11DecorationState { decorations: WindowDecorations::Server, ..state };
    assert_eq!(server.window_decorations(), Decorations::Server);
}

#[test]
fn frame_extents_leave_tiled_edges_out() {
    let state = decoration_state();
    assert_eq!(state.client_insets(10), [10, 10, 0, 0]);
    assert_eq!(X11DecorationState { fullscreen: true, ..state }.client_insets(10), [0, 0, 0, 0]);
    let constrained = X11DecorationState {
        edge_constraints: Some(EdgeConstraints::from_atom((1 << 0) | (1 << 6))),
        ..state
    };
    assert_eq!(constrained.client_insets(7), [0, 7, 0, 7]);
}

#[test]
fn only_opaque_backgrounds_are_opaque_on_x11() {
    assert!(!x11_is_transparent(WindowBackgroundAppearance::Opaque));
    assert!(x11_is_transparent(WindowBackgroundAppearance::Transparent));
    assert!(x11_is_transparent(WindowBackgroundAppearance::Blurred));
}

fn true_color(visual_id: u32) -> VisualType {
    VisualType { visual_id, red_mask: 0xFF0000, green_mask: 0xFF00, blue_mask: 0xFF }
}

#[test]
fn visuals_are_the_first_true_color_ones_of_each_kind() {
    let screen = ScreenVisuals {
        root: 1,
        root_visual: 33,
        default_colormap: 34,
        root_depth: 24,
        black_pixel: 0,
        allowed_depths: vec![
            DepthVisuals {
                depth: 24,
                visuals: vec![
                    VisualType { visual_id: 40, red_mask: 0xF800, green_mask: 0x7E0, blue_mask: 0x1F },
                    true_color(41),
                    true_color(42),
                ],
            },
            DepthVisuals { depth: 32, visuals: vec![true_color(50), true_color(51)] },
        ],
    };
    let set = find_visuals(&screen);
    assert_eq!(set.inherit, Visual { id: 33, colormap: 34, depth: 24 });
    assert_eq!(set.opaque, Some(Visual { id: 41, colormap: 0, depth: 24 }));
    assert_eq!(set.transparent, Some(Visual { id: 50, colormap: 0, depth: 32 }));
    assert_eq!((set.root, set.black_pixel), (1, 0));

    let bare = ScreenVisuals { allowed_depths: vec![], ..screen };
    let set = find_visuals(&bare);
    assert_eq!((set.opaque, set.transparent), (None, None));
}

#[test]
fn window_icons_become_argb_cardinals() {
    let data = net_wm_icon_data(2, 1, &vec![0x11, 0x22, 0x33, 0x44, 0xAA, 0xBB, 0xCC, 0xDD]);
    assert_eq!(data, vec![2, 1, 0x44112233, 0xDDAABBCC]);
    assert_eq!(net_wm_icon_data(0, 0, &vec![]), vec![0, 0]);
}

#[test]
fn wm_class_repeats_the_app_id() {
    assert_eq!(wm_class_data("zed"), b"zed\0zed".to_vec());
    assert_eq!(wm_class_data(""), vec![0]);
}

#[test]
fn net_wm_state_messages_carry_the_action_and_states() {
    assert_eq!(net_wm_state_message(WmHintPropertyState::Toggle, 7, 8), [2, 7, 8, 1, 0]);
    assert_eq!(net_wm_state_message(WmHintPropertyState::Add, 7, 0), [1, 7, 0, 1, 0]);
}

#[test]
fn new_windows_are_planned_from_their_parameters() {
    assert_eq!(x11_screen_index(Some(2), 0), 2);
    assert_eq!(x11_screen_index(None, 1), 1);

    let inherit = Visual { id: 33, colormap: 34, depth: 24 };
    let transparent = Visual { id: 50, colormap: 0, depth: 32 };
    let set = VisualSet { inherit, opaque: None, transparent: Some(transparent), root: 1, black_pixel: 0 };
    assert_eq!(window_visual(&set), (transparent, true));
    let set = VisualSet { transparent: None, ..set };
    assert_eq!(window_visual(&set), (inherit, false));

    let requested = DeviceBounds { x: 10, y: 20, width: 0, height: 300 };
    let bounds = initial_window_bounds(requested);
    assert_eq!(bounds, DeviceBounds { x: 10, y: 20, width: 800, height: 600 });
    assert_eq!(
        initial_window_bounds(DeviceBounds { x: 0, y: 0, width: 640, height: 480 }),
        DeviceBounds { x: 0, y: 0, width: 640, height: 480 }
    );
    assert_eq!(creation_origin(bounds), (12, 20));
    assert_eq!(position_after_geometry(0, 0, bounds), Some(DeviceBounds { x: 12, ..bounds }));
    assert_eq!(position_after_geometry(5, 0, bounds), None);

    assert_eq!(
        kind_properties(WindowKind::Floating, Some(9)),
        KindProperties { transient_for: Some(9), state_above: false }
    );
    assert_eq!(
        kind_properties(WindowKind::Overlay, Some(9)),
        KindProperties { transient_for: None, state_above: true }
    );
    assert_eq!(
        kind_properties(WindowKind::Normal, Some(9)),
        KindProperties { transient_for: None, state_above: false }
    );
}

#[test]
fn failed_window_setup_destroys_the_window_and_reports_the_setup_error() {
    let ok: Result<u32, String> = Ok(7);
    let failed: Result<u32, String> = Err("ChangeProperty failed".to_string());
    assert_eq!(setup_cleanup(&ok), SetupCleanup::Keep);
    assert_eq!(setup_cleanup(&failed), SetupCleanup::DestroyAndFlush);
    assert_eq!(creation_result(ok.clone(), None), Ok(7));
    assert_eq!(creation_result(failed.clone(), Some(Ok(()))), failed);
    assert_eq!(
        creation_result(failed, Some(Err("DestroyWindow failed".to_string()))),
        Err("DestroyWindow failed".to_string())
    );
}
