//! Where the capsule stands on the screen.

use vstd::prelude::*;

verus! {

/// The place, the size and the scale of a monitor.
#[derive(Clone, Copy, Debug, PartialEq, Eq, Structural)]
pub struct MonitorGeometry {
    pub x: i32,
    pub y: i32,
    pub width: u32,
    pub height: u32,
    /// The bits of the scale factor.
    pub scale_bits: u64,
}

/// The last geometry that the capsule was placed for.
#[derive(Clone, Copy, Debug, PartialEq, Eq, Structural)]
pub struct CapsuleLayoutState {
    pub translation_active: bool,
    pub monitor: MonitorGeometry,
}

/// Whether the capsule has to be placed anew: it is forced, out of sight, placed for another
/// geometry, or on another monitor than it should be.
pub open spec fn needs_placing(
    layout: Option<CapsuleLayoutState>,
    current: Option<MonitorGeometry>,
    target: Option<MonitorGeometry>,
    off_screen: bool,
    force: bool,
) -> bool {
    ||| force
    ||| off_screen
    ||| (target is Some && !(layout is Some && layout->0.monitor == target->0))
    ||| current != target
}

/// Decides whether the capsule is placed anew after the displays changed.
pub fn reposition_capsule_after_display_change(
    layout: Option<CapsuleLayoutState>,
    current: Option<MonitorGeometry>,
    target: Option<MonitorGeometry>,
    off_screen: bool,
    force: bool,
) -> (r: bool)
    ensures
        r == needs_placing(layout, current, target, off_screen, force),
{
    let target_changed: bool = match target {
        Some(monitor) => match layout {
            Some(last) => last.monitor != monitor,
            None => true,
        },
        None => off_screen,
    };
    let on_target: bool = match current {
        Some(here) => match target {
            Some(there) => here == there,
            None => false,
        },
        None => target.is_none(),
    };
    force || off_screen || target_changed || !on_target
}

/// The layout after the capsule was placed: the monitor it was placed on, where one is known,
/// with the shape it had.
pub fn layout_after_placing(
    layout: Option<CapsuleLayoutState>,
    placed_on: Option<MonitorGeometry>,
) -> (r: Option<CapsuleLayoutState>)
    ensures
        r == (match placed_on {
            None => layout,
            Some(monitor) => Some(
                CapsuleLayoutState {
                    translation_active: layout is Some && layout->0.translation_active,
                    monitor,
                },
            ),
        }),
{
    match placed_on {
        None => layout,
        Some(monitor) => {
            let translation_active: bool = match layout {
                Some(last) => last.translation_active,
                None => false,
            };
            Some(CapsuleLayoutState { translation_active, monitor })
        },
    }
}

/// A capsule that was placed on its target stays where it is until something changes.
pub proof fn a_placed_capsule_stays(layout: Option<CapsuleLayoutState>, target: MonitorGeometry)
    ensures
        ({
            let placed = CapsuleLayoutState {
                translation_active: layout is Some && layout->0.translation_active,
                monitor: target,
            };
            !needs_placing(Some(placed), Some(target), Some(target), false, false)
        }),
{
}

/// The capsule is placed where it is asked for, where it cannot be seen, where its monitor changed
/// and where it stands on another one, and stays otherwise.
pub proof fn a_capsule_is_placed_only_with_cause(
    layout: Option<CapsuleLayoutState>,
    current: Option<MonitorGeometry>,
    target: Option<MonitorGeometry>,
    off_screen: bool,
    force: bool,
)
    ensures
        ({
            let placed = needs_placing(layout, current, target, off_screen, force);
            &&& force ==> placed
            &&& off_screen ==> placed
            &&& current != target ==> placed
            &&& target is Some && layout is None ==> placed
            &&& target is Some && layout is Some && layout->0.monitor != target->0 ==> placed
            &&& placed && !force && !off_screen && current == target ==> target is Some && (layout
                is None || layout->0.monitor != target->0)
        }),
{
}

} // verus!
