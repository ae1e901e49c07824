//! Placement of a new window from a semantic position: which display it is
//! centred in, whether it hangs below a tray icon, or which corner of the
//! primary display it is put in. The arithmetic in pixels is done by the
//! caller from the placement chosen here.

use vstd::prelude::*;

verus! {

/// A semantic window position, without its pixel amounts.
#[derive(Clone, Copy, Debug, PartialEq, Eq, Structural)]
pub enum WindowPositionKind {
    /// Centred in the primary display.
    Center,
    /// Centred in the display with the given id.
    CenterOnDisplay(u32),
    /// Centred below a tray icon's bounds.
    TrayCenter,
    /// Centred below the bounds of a tray anchor.
    TrayAnchored,
    /// In the top-right corner of the primary display, inside a margin.
    TopRight,
    /// In the bottom-right corner of the primary display, inside a margin.
    BottomRight,
    /// In the top-left corner of the primary display, inside a margin.
    TopLeft,
    /// In the bottom-left corner of the primary display, inside a margin.
    BottomLeft,
}

/// The display a window is centred in.
#[derive(Clone, Copy, Debug, PartialEq, Eq, Structural)]
pub enum PlacementDisplay {
    /// The display at this index of the display list.
    Listed(usize),
    /// The primary display.
    Primary,
}

/// How a window's origin is computed.
#[derive(Clone, Copy, Debug, PartialEq, Eq, Structural)]
pub enum WindowPlacement {
    /// Centred in the visible bounds of a display.
    CenterIn(PlacementDisplay),
    /// At the origin of the screen space.
    Origin,
    /// Horizontally centred on the tray bounds, just below them.
    BelowTray,
    /// In a corner of the primary display's visible bounds, inside the margin.
    Corner { right: bool, bottom: bool },
}

/// The index of the first display with the given id, if any.
pub open spec fn first_display_with_id(ids: Seq<u32>, id: u32) -> Option<usize> {
    if exists|k: int| 0 <= k < ids.len() && ids[k] == id {
        let k = choose|k: int|
            0 <= k < ids.len() && ids[k] == id && forall|j: int| 0 <= j < k ==> ids[j] != id;
        Some(k as usize)
    } else {
        None
    }
}

/// The placement of a position given the ids of the displays and whether a
/// primary display is known.
pub open spec fn placement_of(position: WindowPositionKind, ids: Seq<u32>, has_primary: bool) -> WindowPlacement {
    let on_primary = |p: WindowPlacement| if has_primary { p } else { WindowPlacement::Origin };
    match position {
        WindowPositionKind::Center => on_primary(WindowPlacement::CenterIn(PlacementDisplay::Primary)),
        WindowPositionKind::CenterOnDisplay(id) => match first_display_with_id(ids, id) {
            Some(k) => WindowPlacement::CenterIn(PlacementDisplay::Listed(k)),
            None => on_primary(WindowPlacement::CenterIn(PlacementDisplay::Primary)),
        },
        WindowPositionKind::TrayCenter => WindowPlacement::BelowTray,
        WindowPositionKind::TrayAnchored => WindowPlacement::BelowTray,
        WindowPositionKind::TopRight => on_primary(WindowPlacement::Corner { right: true, bottom: false }),
        WindowPositionKind::BottomRight => on_primary(WindowPlacement::Corner { right: true, bottom: true }),
        WindowPositionKind::TopLeft => on_primary(WindowPlacement::Corner { right: false, bottom: false }),
        WindowPositionKind::BottomLeft => on_primary(WindowPlacement::Corner { right: false, bottom: true }),
    }
}

/// Whether a position is one of the four corners.
pub open spec fn is_corner(position: WindowPositionKind) -> bool {
    ||| position == WindowPositionKind::TopLeft
    ||| position == WindowPositionKind::TopRight
    ||| position == WindowPositionKind::BottomLeft
    ||| position == WindowPositionKind::BottomRight
}

/// A corner position puts the window in that corner of the primary display:
/// on the right side exactly for the top-right and bottom-right corners, at
/// the bottom exactly for the bottom-left and bottom-right corners; with no
/// primary display it goes to the origin. No other position gives a corner.
pub proof fn law_corner_placement(position: WindowPositionKind, ids: Seq<u32>, has_primary: bool)
    ensures
        is_corner(position) && has_primary ==> placement_of(position, ids, has_primary) == (
        WindowPlacement::Corner {
            right: position == WindowPositionKind::TopRight || position
                == WindowPositionKind::BottomRight,
            bottom: position == WindowPositionKind::BottomLeft || position
                == WindowPositionKind::BottomRight,
        }),
        is_corner(position) && !has_primary ==> placement_of(position, ids, has_primary)
            == WindowPlacement::Origin,
        !is_corner(position) ==> !(placement_of(position, ids, has_primary) is Corner),
{
}

/// A centred position uses the primary display, or the first listed display
/// with the requested id when there is one; without the display it needs
/// the window goes to the origin. Tray positions hang below the tray.
pub proof fn law_centered_placement(position: WindowPositionKind, ids: Seq<u32>, has_primary: bool)
    requires
        ids.len() <= usize::MAX,
    ensures
        position == WindowPositionKind::Center ==> placement_of(position, ids, has_primary) == (
        if has_primary {
            WindowPlacement::CenterIn(PlacementDisplay::Primary)
        } else {
            WindowPlacement::Origin
        }),
        position == WindowPositionKind::TrayCenter || position == WindowPositionKind::TrayAnchored
            ==> placement_of(position, ids, has_primary) == WindowPlacement::BelowTray,
        position matches WindowPositionKind::CenterOnDisplay(id) ==> match placement_of(
            position,
            ids,
            has_primary,
        ) {
            WindowPlacement::CenterIn(PlacementDisplay::Listed(k)) => k < ids.len() && ids[k as int]
                == id && forall|j: int| 0 <= j < k ==> ids[j] != id,
            WindowPlacement::CenterIn(PlacementDisplay::Primary) => has_primary && !ids.contains(id),
            WindowPlacement::Origin => !has_primary && !ids.contains(id),
            _ => false,
        },
{
    if let WindowPositionKind::CenterOnDisplay(id) = position {
        if exists|k: int| 0 <= k < ids.len() && ids[k] == id {
            let k0 = choose|k: int| 0 <= k < ids.len() && ids[k] == id;
            lemma_first_with_id(ids, id, k0);
            let k = choose|k: int|
                0 <= k < ids.len() && ids[k] == id && forall|j: int| 0 <= j < k ==> ids[j] != id;
            assert(first_display_with_id(ids, id) == Some(k as usize));
            assert((k as usize) as int == k);
        } else {
            assert(!ids.contains(id));
        }
    }
}

/// When some display has the id, there is a first one.
proof fn lemma_first_with_id(ids: Seq<u32>, id: u32, k0: int)
    requires
        0 <= k0 < ids.len(),
        ids[k0] == id,
    ensures
        exists|k: int| 0 <= k < ids.len() && ids[k] == id && forall|j: int| 0 <= j < k ==> ids[j] != id,
    decreases k0,
{
    if exists|j: int| 0 <= j < k0 && ids[j] == id {
        let j = choose|j: int| 0 <= j < k0 && ids[j] == id;
        lemma_first_with_id(ids, id, j);
    } else {
        assert(0 <= k0 < ids.len() && ids[k0] == id && forall|j: int| 0 <= j < k0 ==> ids[j] != id);
    }
}

/// Decides how a window is placed: centred in the primary display or in the
/// display with the requested id (falling back to the primary display),
/// below the tray, or in a corner of the primary display; at the origin when
/// the display it needs is unknown.
pub fn window_placement(position: WindowPositionKind, display_ids: &Vec<u32>, has_primary: bool) -> (r:
    WindowPlacement)
    ensures
        r == placement_of(position, display_ids@, has_primary),
        r matches WindowPlacement::CenterIn(PlacementDisplay::Listed(k)) ==> k < display_ids@.len(),
        has_primary && position == WindowPositionKind::TopLeft ==> r == (WindowPlacement::Corner {
            right: false,
            bottom: false,
        }),
        has_primary && position == WindowPositionKind::TopRight ==> r == (WindowPlacement::Corner {
            right: true,
            bottom: false,
        }),
        has_primary && position == WindowPositionKind::BottomLeft ==> r == (WindowPlacement::Corner {
            right: false,
            bottom: true,
        }),
        has_primary && position == WindowPositionKind::BottomRight ==> r == (WindowPlacement::Corner {
            right: true,
            bottom: true,
        }),
{
    proof {
        law_corner_placement(position, display_ids@, has_primary);
    }
    let primary_or_origin = |p: WindowPlacement| -> (q: WindowPlacement)
        ensures
            q == if has_primary { p } else { WindowPlacement::Origin },
        {
            if has_primary {
                p
            } else {
                WindowPlacement::Origin
            }
        };
    match position {
        WindowPositionKind::Center => primary_or_origin(
            WindowPlacement::CenterIn(PlacementDisplay::Primary),
        ),
        WindowPositionKind::CenterOnDisplay(id) => {
            let mut k: usize = 0;
            while k < display_ids.len()
                invariant
                    position == WindowPositionKind::CenterOnDisplay(id),
                    k <= display_ids@.len(),
                    forall|j: int| 0 <= j < k ==> display_ids@[j] != id,
                decreases display_ids@.len() - k,
            {
                if display_ids[k] == id {
                    proof {
                        let ids = display_ids@;
                        assert(exists|m: int| 0 <= m < ids.len() && ids[m] == id);
                        assert(0 <= k < ids.len() && ids[k as int] == id && forall|j: int|
                            0 <= j < k ==> ids[j] != id);
                        let c = choose|m: int|
                            0 <= m < ids.len() && ids[m] == id && forall|j: int|
                                0 <= j < m ==> ids[j] != id;
                        assert(c == k) by {
                            if c < k {
                                assert(ids[c] != id);
                            }
                            if k < c {
                                assert(ids[k as int] != id);
                            }
                        }
                    }
                    return WindowPlacement::CenterIn(PlacementDisplay::Listed(k));
                }
                k = k + 1;
            }
            primary_or_origin(WindowPlacement::CenterIn(PlacementDisplay::Primary))
        },
        WindowPositionKind::TrayCenter => WindowPlacement::BelowTray,
        WindowPositionKind::TrayAnchored => WindowPlacement::BelowTray,
        WindowPositionKind::TopRight => primary_or_origin(
            WindowPlacement::Corner { right: true, bottom: false },
        ),
        WindowPositionKind::BottomRight => primary_or_origin(
            WindowPlacement::Corner { right: true, bottom: true },
        ),
        WindowPositionKind::TopLeft => primary_or_origin(
            WindowPlacement::Corner { right: false, bottom: false },
        ),
        WindowPositionKind::BottomLeft => primary_or_origin(
            WindowPlacement::Corner { right: false, bottom: true },
        ),
    }
}

} // verus!
