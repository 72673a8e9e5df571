//! Per-entity interaction records and the process-wide pause gate.
//!
//! `Interaction` and `Selection` are written by the focus and selection
//! stages of the pipeline (one designated writer per field per frame) and
//! read by the highlight resolver. `PausedForBlockers` is recomputed once
//! per frame, before the resolver reads it, and suspends interaction-driven
//! feedback while the pointer sits on a blocker entity.

use vstd::prelude::*;

verus! {

/// Tri-state pointer interaction attached to a pickable entity.
///
/// Exactly one value holds at a time; only the focus stage writes it.
#[derive(Clone, Copy, Debug, PartialEq, Eq, Structural, Hash)]
pub enum Interaction {
    /// The pointer is pressing the entity.
    Pressed,
    /// The pointer rests on the entity without pressing it.
    Hovered,
    /// The pointer does not touch the entity.
    Idle,
}

impl Default for Interaction {
    /// A fresh pickable entity starts untouched.
    fn default() -> (r: Self)
        ensures
            r == Interaction::Idle,
    {
        Interaction::Idle
    }
}

/// Per-entity selection flag, toggled by the selection stage on press
/// events unless the entity carries a [`NoDeselect`] marker.
#[derive(Clone, Copy, Debug, PartialEq, Eq, Structural)]
pub struct Selection {
    pub selected: bool,
}

impl Selection {
    /// Whether the entity is currently selected.
    pub fn selected(&self) -> (r: bool)
        ensures
            r == self.selected,
    {
        self.selected
    }
}

impl Default for Selection {
    /// A fresh pickable entity starts unselected.
    fn default() -> (r: Self)
        ensures
            r == (Selection { selected: false }),
    {
        Selection { selected: false }
    }
}

/// Marker that forbids the selection stage from deselecting the entity when
/// it is clicked again.
#[derive(Clone, Copy, Debug)]
pub struct NoDeselect;

/// Per-entity hover flag, maintained by the focus stage for event emission.
#[derive(Clone, Copy, Debug, PartialEq, Eq, Structural)]
pub struct Hover {
    pub hovered: bool,
}

impl Hover {
    /// Whether the pointer currently rests on the entity.
    pub fn hovered(&self) -> (r: bool)
        ensures
            r == self.hovered,
    {
        self.hovered
    }
}

impl Default for Hover {
    /// A fresh pickable entity starts without hover.
    fn default() -> (r: Self)
        ensures
            r == (Hover { hovered: false }),
    {
        Hover { hovered: false }
    }
}

/// Focus policy of a pickable entity: whether it blocks picking of entities
/// behind it or lets the ray pass through.
#[derive(Clone, Copy, Debug, PartialEq, Eq, Structural)]
pub enum FocusPolicy {
    /// The entity captures the ray.
    Block,
    /// The ray passes through to entities behind.
    Pass,
}

impl Default for FocusPolicy {
    /// By default a pickable entity captures the ray.
    fn default() -> (r: Self)
        ensures
            r == FocusPolicy::Block,
    {
        FocusPolicy::Block
    }
}

/// Process-wide pause gate: true while the pointer intersects a blocker
/// entity (for example a modal overlay).
///
/// It has exactly one writer per frame (the pause stage) and is read by the
/// highlight resolver, which then suppresses the pressed and hovered tiers
/// of feedback while preserving the selected tier.
#[derive(Clone, Copy, Debug, PartialEq, Eq, Structural)]
pub struct PausedForBlockers(pub bool);

impl Default for PausedForBlockers {
    /// A frame starts unpaused until the pause stage observes a blocker.
    fn default() -> (r: Self)
        ensures
            r == PausedForBlockers(false),
    {
        PausedForBlockers(false)
    }
}

} // verus!
