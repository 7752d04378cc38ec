use vstd::prelude::*;

verus! {

/// Records one display reported by the platform's enumeration and asks it to
/// go on: every display is kept, in the order reported.
pub fn record_monitor(monitors: &mut Vec<isize>, monitor: isize) -> (r: bool)
    ensures
        final(monitors)@ == old(monitors)@.push(monitor),
        r,
{
    monitors.push(monitor);
    true
}

/// The first display reported, if any was.
pub fn first_monitor(monitors: &Vec<isize>) -> (r: Option<isize>)
    ensures
        monitors@.len() == 0 <==> r is None,
        r is Some ==> r->0 == monitors@[0],
{
    if monitors.len() == 0 {
        None
    } else {
        Some(monitors[0])
    }
}

/// What the platform tells of a top-level window.
#[derive(Clone, Copy, Debug, PartialEq, Eq, Structural)]
pub struct WindowInfo {
    pub handle: isize,
    pub title_len: i32,
    pub visible: bool,
    pub minimized: bool,
    pub cloaked: bool,
    pub tool_window: bool,
}

/// A window whose content can be captured: shown, not minimized, not cloaked
/// by the compositor, and not a tool window.
pub open spec fn capturable(w: WindowInfo) -> bool {
    w.visible && !w.minimized && !w.cloaked && !w.tool_window
}

/// A window that is listed as a capture target: titled and capturable.
pub open spec fn listed(w: WindowInfo) -> bool {
    w.title_len > 0 && capturable(w)
}

/// Whether the window's content can be captured.
pub fn is_capturable_window(w: &WindowInfo) -> (r: bool)
    ensures
        r == capturable(*w),
{
    w.visible && !w.minimized && !w.cloaked && !w.tool_window
}

/// Records one window reported by the platform's enumeration, keeping it
/// where it is titled and capturable, and asks the enumeration to go on.
pub fn record_window(windows: &mut Vec<isize>, w: &WindowInfo) -> (r: bool)
    ensures
        listed(*w) ==> final(windows)@ == old(windows)@.push(w.handle),
        !listed(*w) ==> final(windows)@ == old(windows)@,
        r,
{
    if w.title_len > 0 && is_capturable_window(w) {
        windows.push(w.handle);
    }
    true
}

} // verus!
