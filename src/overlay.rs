//! The overlay: one full-screen, transparent window that lets clicks through.

use vstd::prelude::*;

use crate::note::open_labels;

verus! {

/// The label of the overlay window.
pub const OVERLAY_LABEL: &'static str = "overlay";

/// The event that carries the board's state to every window.
pub const STATE_SYNC_EVENT: &'static str = "overlay:state_sync";

/// Win32's `GWL_EXSTYLE`: the index of a window's extended style.
pub const GWL_EXSTYLE: i32 = -20;

/// Win32's `WS_EX_LAYERED` extended window style.
pub const WS_EX_LAYERED: isize = 0x0008_0000;

/// Win32's `WS_EX_TRANSPARENT` extended window style.
pub const WS_EX_TRANSPARENT: isize = 0x0000_0020;

/// Whether the overlay window is to be built: only when it is not open yet.
pub fn spawn_overlay_window(open: &Vec<String>) -> (r: bool)
    ensures
        r == !open_labels(open@).contains(OVERLAY_LABEL@),
{
    let label = String::from_str(OVERLAY_LABEL);
    !crate::note::is_open(open, &label)
}

/// The extended style that makes a window with style `ex_style` layered and
/// transparent to mouse input, keeping every bit it had.
pub fn click_through_style(ex_style: isize) -> (r: isize)
    ensures
        r == ex_style | WS_EX_LAYERED | WS_EX_TRANSPARENT,
        r & ex_style == ex_style,
{
    let r = ex_style | WS_EX_LAYERED | WS_EX_TRANSPARENT;
    assert(r & ex_style == ex_style) by (bit_vector)
        requires
            r == ex_style | 0x0008_0000isize | 0x0000_0020isize,
    ;
    r
}

} // verus!
