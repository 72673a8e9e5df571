use picking::bundle::{
    PickableBundle, PickingCameraBundle, ScreenPosition, UpdatePicks,
};
use picking::highlight::PickableButton;
use picking::interaction::{FocusPolicy, Hover, Interaction, PausedForBlockers, Selection};
use picking::schedule::{
    enable_highlighting, enable_interacting, enable_picking, print_debug_events, resolve_order,
    simple_criteria, update_debug_cursor, DebugCursorPickingPlugin, DebugEventsPickingPlugin,
    DefaultPickingPlugins, FeatureToggle, PickingPluginsState, PickingSystem, ScheduleBuilder,
    ShouldRun, StageDescriptor, StageWork,
};
use picking::schedule::frame_plan;

fn full_schedule() -> ScheduleBuilder {
    let mut app = ScheduleBuilder::new();
    DefaultPickingPlugins.build(&mut app);
    DebugCursorPickingPlugin.build(&mut app);
    DebugEventsPickingPlugin.build(&mut app);
    app
}

fn position(stages: &[StageDescriptor], order: &[usize], work: StageWork) -> usize {
    for (pos, &idx) in order.iter().enumerate() {
        if stages[idx].work == work {
            return pos;
        }
    }
    panic!("stage not present in the order");
}

#[test]
fn default_plugins_register_all_stages() {
    let app = full_schedule();
    assert_eq!(app.stages.len(), 12);
    assert!(app.picking_state_initialized);
    assert!(app.paused_initialized);
    assert!(app.picking_events_initialized);
    assert!(app.button_materials_initialized);
}

#[test]
fn resolved_order_respects_every_constraint() {
    let app = full_schedule();
    let order = resolve_order(&app.stages).expect("the default stage graph is acyclic");
    assert_eq!(order.len(), 12);

    let pos = |work| position(&app.stages, &order, work);
    // Ray sources move and rays are built before the intersection pass.
    assert!(pos(StageWork::UpdateBoundSphere) < pos(StageWork::UpdateRaycast));
    assert!(pos(StageWork::UpdatePickSourcePositions) < pos(StageWork::BuildRays));
    assert!(pos(StageWork::BuildRays) < pos(StageWork::UpdateRaycast));
    // Pause gate, focus and selection run in order after the intersection
    // pass and before event emission.
    assert!(pos(StageWork::UpdateRaycast) < pos(StageWork::PauseForBlockers));
    assert!(pos(StageWork::PauseForBlockers) < pos(StageWork::Focus));
    assert!(pos(StageWork::Focus) < pos(StageWork::Selection));
    assert!(pos(StageWork::Selection) < pos(StageWork::Events));
    // The capture sub-step sits between the intersection pass and the
    // resolver; the resolver runs before event emission.
    assert!(pos(StageWork::UpdateRaycast) < pos(StageWork::InitialHighlights));
    assert!(pos(StageWork::InitialHighlights) < pos(StageWork::Highlighting));
    assert!(pos(StageWork::Highlighting) < pos(StageWork::Events));
    // Debug stages follow their producers.
    assert!(pos(StageWork::UpdateRaycast) < pos(StageWork::DebugCursor));
    assert!(pos(StageWork::Events) < pos(StageWork::DebugEvents));
}

#[test]
fn cyclic_constraints_are_rejected() {
    let mut app = ScheduleBuilder::new();
    app.add_stage(StageDescriptor {
        work: StageWork::Focus,
        label: Some(PickingSystem::Focus),
        before: Some(PickingSystem::Events),
        after: None,
        criteria: FeatureToggle::Interacting,
    });
    app.add_stage(StageDescriptor {
        work: StageWork::Events,
        label: Some(PickingSystem::Events),
        before: Some(PickingSystem::Focus),
        after: None,
        criteria: FeatureToggle::Interacting,
    });
    assert_eq!(resolve_order(&app.stages), None);
}

#[test]
fn disabled_group_is_skipped_entirely() {
    let app = full_schedule();
    let state = PickingPluginsState {
        enable_highlighting: false,
        ..PickingPluginsState::default()
    };
    let plan = frame_plan(&state, &app.stages).expect("the default stage graph is acyclic");
    assert_eq!(plan.len(), 10);
    for &idx in plan.iter() {
        let work = app.stages[idx].work;
        assert_ne!(work, StageWork::InitialHighlights);
        assert_ne!(work, StageWork::Highlighting);
    }
}

#[test]
fn disabled_interaction_group_is_skipped() {
    let app = full_schedule();
    let state = PickingPluginsState {
        enable_interacting: false,
        ..PickingPluginsState::default()
    };
    let plan = frame_plan(&state, &app.stages).expect("the default stage graph is acyclic");
    assert_eq!(plan.len(), 8);
    for &idx in plan.iter() {
        let work = app.stages[idx].work;
        assert_ne!(work, StageWork::PauseForBlockers);
        assert_ne!(work, StageWork::Focus);
        assert_ne!(work, StageWork::Selection);
        assert_ne!(work, StageWork::Events);
    }
}

#[test]
fn all_enabled_plan_runs_everything() {
    let app = full_schedule();
    let state = PickingPluginsState::default();
    let plan = frame_plan(&state, &app.stages).expect("the default stage graph is acyclic");
    assert_eq!(plan.len(), 12);
}

#[test]
fn criteria_translate_switches() {
    assert_eq!(simple_criteria(true), ShouldRun::Yes);
    assert_eq!(simple_criteria(false), ShouldRun::No);
    let mut state = PickingPluginsState::default();
    assert_eq!(enable_picking(&state), ShouldRun::Yes);
    assert_eq!(enable_interacting(&state), ShouldRun::Yes);
    assert_eq!(enable_highlighting(&state), ShouldRun::Yes);
    assert_eq!(update_debug_cursor(&state), ShouldRun::Yes);
    assert_eq!(print_debug_events(&state), ShouldRun::Yes);
    state.enable_interacting = false;
    assert_eq!(enable_interacting(&state), ShouldRun::No);
    assert_eq!(enable_picking(&state), ShouldRun::Yes);
}

#[test]
fn pause_gate_starts_lowered() {
    assert_eq!(PausedForBlockers::default(), PausedForBlockers(false));
}

#[test]
fn pickable_bundle_defaults() {
    let bundle = PickableBundle::default();
    assert_eq!(bundle.interaction, Interaction::Idle);
    assert_eq!(bundle.focus_policy, FocusPolicy::Block);
    assert_eq!(bundle.selection, Selection { selected: false });
    assert_eq!(bundle.hover, Hover { hovered: false });
    let PickableButton {
        initial,
        hovered,
        pressed,
        selected,
    } = bundle.pickable_button;
    assert_eq!(initial, None);
    assert_eq!(hovered, None);
    assert_eq!(pressed, None);
    assert_eq!(selected, None);
}

#[test]
fn camera_bundle_defaults_to_every_frame() {
    let bundle = PickingCameraBundle::default();
    assert_eq!(
        bundle.update,
        UpdatePicks::EveryFrame(ScreenPosition { x: 0, y: 0 })
    );
}

#[test]
fn selection_and_hover_accessors() {
    let s = Selection { selected: true };
    assert!(s.selected());
    assert!(!Selection::default().selected());
    let h = Hover { hovered: true };
    assert!(h.hovered());
    assert!(!Hover::default().hovered());
}
