use adabraka_gpui::x11_hints::{
    ensure_window_kind_supported, motif_hints_data, normal_size_hints, EdgeConstraints,
    LayerShellNotSupportedError, NormalSizeHints, X11WindowType,
};
use adabraka_gpui::x11_hints::window_type_for_kind;
use adabraka_gpui::window::{ResizeEdge, WindowDecorations, WindowKind};

#[test]
fn window_kind_maps_to_ewmh_window_type() {
    assert_eq!(window_type_for_kind(&WindowKind::Normal), X11WindowType::Normal);
    assert_eq!(window_type_for_kind(&WindowKind::PopUp), X11WindowType::Notification);
    assert_eq!(window_type_for_kind(&WindowKind::Floating), X11WindowType::Dialog);
    assert_eq!(window_type_for_kind(&WindowKind::Overlay), X11WindowType::Dock);
}

#[test]
fn layer_shell_window_kind_is_rejected() {
    let error = ensure_window_kind_supported(&WindowKind::LayerShell)
        .expect_err("X11 must reject Wayland layer-shell windows");

    assert_eq!(error, LayerShellNotSupportedError);
    assert_eq!(ensure_window_kind_supported(&WindowKind::Overlay), Ok(()));
}

#[test]
fn resizable_window_without_min_size_has_no_size_hints() {
    assert!(normal_size_hints(true, (320, 240), None).is_none());
}

#[test]
fn min_size_becomes_normal_size_hint() {
    let hints = normal_size_hints(true, (320, 240), Some((120, 80)))
        .expect("min size should produce size hints");

    assert_eq!(hints.min_size, Some((120, 80)));
    assert_eq!(hints.max_size, None);
}

#[test]
fn non_resizable_window_uses_fixed_size_hints() {
    let hints = normal_size_hints(false, (320, 240), None)
        .expect("fixed size should produce size hints");

    assert_eq!(hints.min_size, Some((320, 240)));
    assert_eq!(hints.max_size, Some((320, 240)));
    let Some((width, height)) = hints.size else {
        panic!("fixed windows should use program-specified size hints");
    };
    assert_eq!((width, height), (320, 240));
    assert_eq!(
        normal_size_hints(false, (320, 240), Some((10, 10))),
        Some(NormalSizeHints {
            size: Some((320, 240)),
            min_size: Some((320, 240)),
            max_size: Some((320, 240)),
        })
    );
}

#[test]
fn motif_hints_preserve_close_move_minimize_for_fixed_size_windows() {
    const MWM_HINTS_FUNCTIONS: u32 = 1 << 0;
    const MWM_HINTS_DECORATIONS: u32 = 1 << 1;
    const MWM_FUNC_MOVE: u32 = 1 << 2;
    const MWM_FUNC_MINIMIZE: u32 = 1 << 3;
    const MWM_FUNC_CLOSE: u32 = 1 << 5;

    assert_eq!(
        motif_hints_data(WindowDecorations::Client, false),
        [
            MWM_HINTS_FUNCTIONS | MWM_HINTS_DECORATIONS,
            MWM_FUNC_MOVE | MWM_FUNC_MINIMIZE | MWM_FUNC_CLOSE,
            0,
            0,
            0,
        ]
    );
}

#[test]
fn motif_hints_allow_all_functions_for_resizable_windows() {
    const MWM_HINTS_FUNCTIONS: u32 = 1 << 0;
    const MWM_HINTS_DECORATIONS: u32 = 1 << 1;
    const MWM_FUNC_ALL: u32 = 1 << 0;

    assert_eq!(
        motif_hints_data(WindowDecorations::Server, true),
        [MWM_HINTS_FUNCTIONS | MWM_HINTS_DECORATIONS, MWM_FUNC_ALL, 1, 0, 0]
    );
}

#[test]
fn resize_edges_map_to_moveresize_directions() {
    assert_eq!(ResizeEdge::TopLeft.to_moveresize(), 0);
    assert_eq!(ResizeEdge::Top.to_moveresize(), 1);
    assert_eq!(ResizeEdge::TopRight.to_moveresize(), 2);
    assert_eq!(ResizeEdge::Right.to_moveresize(), 3);
    assert_eq!(ResizeEdge::BottomRight.to_moveresize(), 4);
    assert_eq!(ResizeEdge::Bottom.to_moveresize(), 5);
    assert_eq!(ResizeEdge::BottomLeft.to_moveresize(), 6);
    assert_eq!(ResizeEdge::Left.to_moveresize(), 7);
}

#[test]
fn edge_constraints_decode_tiled_edges() {
    let constraints = EdgeConstraints::from_atom(0b0101_0001);
    assert!(constraints.top_tiled);
    assert!(!constraints.top_resizable);
    assert!(!constraints.right_tiled);
    assert!(constraints.bottom_tiled);
    assert!(constraints.left_tiled);
    let tiling = constraints.to_tiling();
    assert!(tiling.top && !tiling.right && tiling.bottom && tiling.left);
    let all = EdgeConstraints::from_atom(0xff);
    assert!(all.top_resizable && all.right_resizable && all.bottom_resizable && all.left_resizable);
}
