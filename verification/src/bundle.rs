//! Default component bundles for pipeline participation.
//!
//! These are pure data defaults with no behavior of their own: the bundle a
//! pickable entity starts with, and the bundle a camera-like entity needs to
//! act as a ray source.

use vstd::prelude::*;

use crate::highlight::PickableButton;
use crate::interaction::{FocusPolicy, Hover, Interaction, Selection};

verus! {

/// Tag for the ray-casting collaborator's generic mesh and source records,
/// so that the picking pipeline's rays never collide with another ray
/// caster's.
#[derive(Clone, Copy, Debug)]
pub struct PickingRaycastSet;

/// Marker making an entity's geometry eligible for ray intersections; the
/// intersections themselves are owned by the ray-casting collaborator.
#[derive(Clone, Copy, Debug)]
pub struct PickableMesh;

impl Default for PickableMesh {
    /// The marker carries no data.
    fn default() -> (r: Self)
        ensures
            r == PickableMesh,
    {
        PickableMesh
    }
}

/// Marker making a camera-like entity a source of picking rays.
#[derive(Clone, Copy, Debug)]
pub struct PickingCamera;

impl PickingCamera {
    /// A fresh ray source with no ray cast yet.
    pub fn new() -> (r: Self)
        ensures
            r == PickingCamera,
    {
        PickingCamera
    }
}

/// A pointer position in whole screen pixels, as the input collaborator
/// reports it.
#[derive(Clone, Copy, Debug, PartialEq, Eq, Structural)]
pub struct ScreenPosition {
    pub x: i64,
    pub y: i64,
}

impl ScreenPosition {
    /// The screen origin.
    pub fn zero() -> (r: Self)
        ensures
            r == (ScreenPosition { x: 0, y: 0 }),
    {
        ScreenPosition { x: 0, y: 0 }
    }
}

/// Update policy of a ray source: recompute the ray every frame at a fixed
/// screen position, or only when the pointer moves.
#[derive(Clone, Copy, Debug, PartialEq, Eq, Structural)]
pub enum UpdatePicks {
    EveryFrame(ScreenPosition),
    OnMouseEvent,
}

impl Default for UpdatePicks {
    /// By default the ray is rebuilt every frame at the screen origin.
    fn default() -> (r: Self)
        ensures
            r == UpdatePicks::EveryFrame(ScreenPosition { x: 0, y: 0 }),
    {
        UpdatePicks::EveryFrame(ScreenPosition { x: 0, y: 0 })
    }
}

/// Components a camera-like entity needs to cast picking rays: the ray
/// source itself and its update policy.
#[derive(Clone, Copy, Debug)]
pub struct PickingCameraBundle {
    pub source: PickingCamera,
    pub update: UpdatePicks,
}

impl Default for PickingCameraBundle {
    /// A fresh ray source that recomputes every frame at the origin.
    fn default() -> (r: Self)
        ensures
            r.update == UpdatePicks::EveryFrame(ScreenPosition { x: 0, y: 0 }),
    {
        PickingCameraBundle { source: PickingCamera::new(), update: UpdatePicks::default() }
    }
}

/// Components a pickable entity starts with: pickable geometry marker, idle
/// interaction, blocking focus policy, empty highlight table, unselected
/// selection, and no hover.
#[derive(Clone, Copy, Debug)]
pub struct PickableBundle {
    pub pickable_mesh: PickableMesh,
    pub interaction: Interaction,
    pub focus_policy: FocusPolicy,
    pub pickable_button: PickableButton,
    pub selection: Selection,
    pub hover: Hover,
}

impl Default for PickableBundle {
    /// The declarative default: untouched, blocking, no overrides, no
    /// captured material, unselected, not hovered.
    fn default() -> (r: Self)
        ensures
            r.interaction == Interaction::Idle,
            r.focus_policy == FocusPolicy::Block,
            r.pickable_button == (PickableButton {
                initial: None,
                hovered: None,
                pressed: None,
                selected: None,
            }),
            r.selection == (Selection { selected: false }),
            r.hover == (Hover { hovered: false }),
    {
        PickableBundle {
            pickable_mesh: PickableMesh::default(),
            interaction: Interaction::default(),
            focus_policy: FocusPolicy::default(),
            pickable_button: PickableButton::default(),
            selection: Selection::default(),
            hover: Hover::default(),
        }
    }
}

} // verus!
