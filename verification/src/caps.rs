//! Host capabilities that steer listener selection.

use vstd::prelude::*;

verus! {

/// Snapshot of the host features the coordination layer cares about.
///
/// A snapshot is a value: a refresh replaces it as a whole.
#[derive(Clone, Copy, Debug, PartialEq, Eq, Structural)]
pub struct ClientCaps {
    /// The host offers a native screen-orientation object that emits
    /// `change` events.
    pub screen_orientation: bool,
}

/// Which family of raw input the shared control watcher reads.
#[derive(Clone, Copy, Debug, PartialEq, Eq, Structural)]
pub enum WatcherKind {
    Mouse,
    Touch,
}

/// A device counts as touch-driven when the window exposes a touch-start
/// property and reports at least one touch point.
pub open spec fn touch_capable(has_touch_start: bool, max_touch_points: i32) -> bool {
    has_touch_start && max_touch_points > 0
}

/// The watcher family that serves a device class.
pub open spec fn watcher_for(touch_device: bool) -> WatcherKind {
    if touch_device {
        WatcherKind::Touch
    } else {
        WatcherKind::Mouse
    }
}

/// Classifies the device from the two facts the host can observe.
pub fn is_touch_device(has_touch_start: bool, max_touch_points: i32) -> (touch: bool)
    ensures
        touch == touch_capable(has_touch_start, max_touch_points),
{
    has_touch_start && max_touch_points > 0
}

/// Picks the watcher family for a device class.
pub fn select_watcher(touch_device: bool) -> (kind: WatcherKind)
    ensures
        kind == watcher_for(touch_device),
{
    if touch_device {
        WatcherKind::Touch
    } else {
        WatcherKind::Mouse
    }
}

} // verus!
