//! Interaction-state pipeline and highlight-resolution engine for a
//! frame-driven picking scene.
//!
//! The crate models the per-frame pipeline that turns "a ray intersected
//! object X" into "object X's interaction and selection state is updated and
//! its displayed material reflects that state":
//!
//! * [`interaction`] holds the per-entity interaction, selection and hover
//!   records, and the process-wide pause gate.
//! * [`highlight`] holds the highlight-material tables and the highlight
//!   resolver, the stage that decides which material each changed entity
//!   should now display.
//! * [`schedule`] holds the named stages, their declarative ordering
//!   constraints, the feature toggles gating each stage group, and the
//!   resolution of the constraints into a linear execution order.
//! * [`bundle`] holds the default component bundles for pickable entities
//!   and ray-source cameras.

pub mod bundle;
pub mod highlight;
pub mod interaction;
pub mod schedule;

pub use crate::bundle::{
    PickableBundle, PickableMesh, PickingCamera, PickingCameraBundle, PickingRaycastSet,
    ScreenPosition, UpdatePicks,
};
pub use crate::highlight::{
    get_initial_mesh_button_material, mesh_highlighting, resolve_highlight, HighlightEntry,
    MaterialHandle, MeshButtonMaterials, PickableButton,
};
pub use crate::interaction::{
    FocusPolicy, Hover, Interaction, NoDeselect, PausedForBlockers, Selection,
};
pub use crate::schedule::{
    enable_highlighting, enable_interacting, enable_picking, print_debug_events, simple_criteria,
    update_debug_cursor, DebugCursorPickingPlugin, DebugEventsPickingPlugin, DefaultPickingPlugins,
    FeatureToggle, HighlightablePickingPlugin, InteractablePickingPlugin, PickingPlugin,
    PickingPluginsState, PickingSystem, ScheduleBuilder, ShouldRun, StageDescriptor, StageWork,
};
