//! Verified platform-independent logic of the Adabraka GPUI framework:
//! resource budgets; window placement; X11 and Wayland window-manager
//! state, hints and surface decisions; layer-shell protocol values; global
//! hotkey translation; tray menus and icons; GPU readback; accessibility
//! tree building and dumps; profiler bookkeeping; dispatcher queues and
//! scheduling decisions; screen-capture termination.

pub mod resource_profile;
pub mod text;
pub mod wire;
pub mod hotkey;
pub mod a11y;
pub mod a11y_debug;
pub mod profiler;
pub mod run_spans;
pub mod glyph_runs;
pub mod window;
pub mod x11_hints;
pub mod x11_state;
pub mod layer_shell;
pub mod wayland_toplevel;
pub mod wayland_surface;
pub mod status_notifier;
pub mod tray_menu;
pub mod ico;
pub mod pixels;
pub mod window_placement;
pub mod dispatcher;
pub mod application;
pub mod screen_capture;
pub mod emoji;
pub mod ime;
pub mod ns_range;
