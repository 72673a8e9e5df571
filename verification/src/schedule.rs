//! The stage graph of the picking pipeline.
//!
//! Each per-frame unit of work is a named stage with declarative ordering
//! constraints ("runs before X" / "runs after X") and a gating predicate
//! over the process-wide feature toggles. The plugins register the stages;
//! [`resolve_order`] turns the constraints into a linear execution order,
//! and [`frame_plan`] restricts that order to the stages whose toggle is
//! currently enabled — a disabled stage is skipped entirely for the frame
//! and must not error.

use vstd::prelude::*;

verus! {

/// Labels for the stages that other stages may order themselves against.
#[derive(Clone, Copy, Debug, PartialEq, Eq, Structural, Hash)]
pub enum PickingSystem {
    BuildRays,
    UpdateRaycast,
    Highlighting,
    Selection,
    PauseForBlockers,
    Focus,
    Events,
}

/// The concrete per-frame work a registered stage performs. Stages that
/// carry no label still need an identity so the host can dispatch them.
#[derive(Clone, Copy, Debug, PartialEq, Eq, Structural, Hash)]
pub enum StageWork {
    /// Refresh the bounding volumes the raycaster prunes against.
    UpdateBoundSphere,
    /// Move each ray source to the current pointer position.
    UpdatePickSourcePositions,
    /// Build one ray per ray source.
    BuildRays,
    /// Intersect the rays with the pickable geometry.
    UpdateRaycast,
    /// Recompute the pause gate from the blocker entities under the pointer.
    PauseForBlockers,
    /// Write the per-entity interaction records from the raycast results.
    Focus,
    /// Toggle the per-entity selection records on press transitions.
    Selection,
    /// Emit the typed event stream from the state deltas.
    Events,
    /// Capture each entity's initial displayed material once.
    InitialHighlights,
    /// Resolve and write the displayed material of each changed entity.
    Highlighting,
    /// Draw the debug cursor at the latest intersection.
    DebugCursor,
    /// Log the emitted events.
    DebugEvents,
}

/// The independent feature switches; each stage group is gated by one.
#[derive(Clone, Copy, Debug, PartialEq, Eq, Structural, Hash)]
pub enum FeatureToggle {
    Picking,
    Interacting,
    Highlighting,
    DebugCursor,
    DebugEvents,
}

/// Process-wide configuration record with one independent switch per stage
/// group; read by every stage's run-predicate, written only by the host.
#[derive(Clone, Copy, Debug)]
pub struct PickingPluginsState {
    pub enable_picking: bool,
    pub enable_highlighting: bool,
    pub enable_interacting: bool,
    pub update_debug_cursor: bool,
    pub print_debug_events: bool,
}

impl Default for PickingPluginsState {
    /// Every stage group starts enabled.
    fn default() -> (r: Self)
        ensures
            r.enable_picking,
            r.enable_highlighting,
            r.enable_interacting,
            r.update_debug_cursor,
            r.print_debug_events,
    {
        Self {
            enable_picking: true,
            enable_highlighting: true,
            enable_interacting: true,
            update_debug_cursor: true,
            print_debug_events: true,
        }
    }
}

/// Answer of a stage's run-predicate for the current frame.
#[derive(Clone, Copy, Debug, PartialEq, Eq, Structural)]
pub enum ShouldRun {
    Yes,
    No,
}

/// The run-predicate answer a boolean switch translates to.
pub open spec fn spec_should_run(flag: bool) -> ShouldRun {
    if flag {
        ShouldRun::Yes
    } else {
        ShouldRun::No
    }
}

/// Translates one feature switch into a run-predicate answer.
pub fn simple_criteria(flag: bool) -> (r: ShouldRun)
    ensures
        r == spec_should_run(flag),
{
    if flag {
        ShouldRun::Yes
    } else {
        ShouldRun::No
    }
}

/// The switch of `PickingPluginsState` a toggle reads.
pub open spec fn spec_toggle_enabled(state: PickingPluginsState, toggle: FeatureToggle) -> bool {
    match toggle {
        FeatureToggle::Picking => state.enable_picking,
        FeatureToggle::Interacting => state.enable_interacting,
        FeatureToggle::Highlighting => state.enable_highlighting,
        FeatureToggle::DebugCursor => state.update_debug_cursor,
        FeatureToggle::DebugEvents => state.print_debug_events,
    }
}

/// Reads the switch a toggle is gated by.
pub fn toggle_enabled(state: &PickingPluginsState, toggle: FeatureToggle) -> (r: bool)
    ensures
        r == spec_toggle_enabled(*state, toggle),
{
    match toggle {
        FeatureToggle::Picking => state.enable_picking,
        FeatureToggle::Interacting => state.enable_interacting,
        FeatureToggle::Highlighting => state.enable_highlighting,
        FeatureToggle::DebugCursor => state.update_debug_cursor,
        FeatureToggle::DebugEvents => state.print_debug_events,
    }
}

/// Run-predicate of the raycasting stage group.
pub fn enable_picking(state: &PickingPluginsState) -> (r: ShouldRun)
    ensures
        r == spec_should_run(state.enable_picking),
{
    simple_criteria(state.enable_picking)
}

/// Run-predicate of the interaction and selection stage group.
pub fn enable_interacting(state: &PickingPluginsState) -> (r: ShouldRun)
    ensures
        r == spec_should_run(state.enable_interacting),
{
    simple_criteria(state.enable_interacting)
}

/// Run-predicate of the highlighting stage group.
pub fn enable_highlighting(state: &PickingPluginsState) -> (r: ShouldRun)
    ensures
        r == spec_should_run(state.enable_highlighting),
{
    simple_criteria(state.enable_highlighting)
}

/// Run-predicate of the debug-cursor stage.
pub fn update_debug_cursor(state: &PickingPluginsState) -> (r: ShouldRun)
    ensures
        r == spec_should_run(state.update_debug_cursor),
{
    simple_criteria(state.update_debug_cursor)
}

/// Run-predicate of the event-logging stage.
pub fn print_debug_events(state: &PickingPluginsState) -> (r: ShouldRun)
    ensures
        r == spec_should_run(state.print_debug_events),
{
    simple_criteria(state.print_debug_events)
}

/// One registered stage: its work, its optional label, its declarative
/// ordering constraints against other labels, and the toggle gating it.
#[derive(Clone, Copy, Debug)]
pub struct StageDescriptor {
    pub work: StageWork,
    pub label: Option<PickingSystem>,
    pub before: Option<PickingSystem>,
    pub after: Option<PickingSystem>,
    pub criteria: FeatureToggle,
}

/// Whether the declared constraints force stage `a` to run before stage
/// `b`: `a` declares itself before `b`'s label, or `b` declares itself
/// after `a`'s label.
pub open spec fn spec_must_precede(a: StageDescriptor, b: StageDescriptor) -> bool {
    (a.before is Some && b.label == a.before) || (b.after is Some && a.label == b.after)
}

/// Decides whether the declared constraints force `a` to run before `b`.
pub fn must_precede(a: &StageDescriptor, b: &StageDescriptor) -> (r: bool)
    ensures
        r == spec_must_precede(*a, *b),
{
    let before_hit = match (a.before, b.label) {
        (Some(x), Some(y)) => x == y,
        _ => false,
    };
    let after_hit = match (b.after, a.label) {
        (Some(x), Some(y)) => x == y,
        _ => false,
    };
    before_hit || after_hit
}

/// The schedule under construction: the registered stages in registration
/// order, and which global resources the registered plugins initialize at
/// startup. Missing global resources are a startup-time failure, so the
/// host checks these flags before running any frame.
pub struct ScheduleBuilder {
    pub stages: Vec<StageDescriptor>,
    pub picking_state_initialized: bool,
    pub paused_initialized: bool,
    pub picking_events_initialized: bool,
    pub button_materials_initialized: bool,
}

impl ScheduleBuilder {
    /// An empty schedule: no stages, no resources initialized.
    pub fn new() -> (r: Self)
        ensures
            r.stages@ == Seq::<StageDescriptor>::empty(),
            !r.picking_state_initialized,
            !r.paused_initialized,
            !r.picking_events_initialized,
            !r.button_materials_initialized,
    {
        ScheduleBuilder {
            stages: Vec::new(),
            picking_state_initialized: false,
            paused_initialized: false,
            picking_events_initialized: false,
            button_materials_initialized: false,
        }
    }

    /// Registers one stage; registration order carries no meaning, only the
    /// declared constraints do.
    pub fn add_stage(&mut self, descriptor: StageDescriptor)
        ensures
            final(self).stages@ == old(self).stages@.push(descriptor),
            final(self).picking_state_initialized == old(self).picking_state_initialized,
            final(self).paused_initialized == old(self).paused_initialized,
            final(self).picking_events_initialized == old(self).picking_events_initialized,
            final(self).button_materials_initialized == old(self).button_materials_initialized,
    {
        self.stages.push(descriptor);
    }
}

/// The stages the raycasting plugin registers: ray-source updates and ray
/// builds strictly before the intersection pass, all gated by the picking
/// toggle.
pub open spec fn spec_picking_plugin_stages() -> Seq<StageDescriptor> {
    seq![
        StageDescriptor {
            work: StageWork::UpdateBoundSphere,
            label: None,
            before: Some(PickingSystem::UpdateRaycast),
            after: None,
            criteria: FeatureToggle::Picking,
        },
        StageDescriptor {
            work: StageWork::UpdatePickSourcePositions,
            label: None,
            before: Some(PickingSystem::BuildRays),
            after: None,
            criteria: FeatureToggle::Picking,
        },
        StageDescriptor {
            work: StageWork::BuildRays,
            label: Some(PickingSystem::BuildRays),
            before: Some(PickingSystem::UpdateRaycast),
            after: None,
            criteria: FeatureToggle::Picking,
        },
        StageDescriptor {
            work: StageWork::UpdateRaycast,
            label: Some(PickingSystem::UpdateRaycast),
            before: None,
            after: None,
            criteria: FeatureToggle::Picking,
        },
    ]
}

/// The stages the interaction plugin registers: pause-gate recomputation,
/// then focus, then selection, all before event emission and after the
/// intersection pass, gated by the interacting toggle.
pub open spec fn spec_interactable_plugin_stages() -> Seq<StageDescriptor> {
    seq![
        StageDescriptor {
            work: StageWork::PauseForBlockers,
            label: Some(PickingSystem::PauseForBlockers),
            before: None,
            after: Some(PickingSystem::UpdateRaycast),
            criteria: FeatureToggle::Interacting,
        },
        StageDescriptor {
            work: StageWork::Focus,
            label: Some(PickingSystem::Focus),
            before: None,
            after: Some(PickingSystem::PauseForBlockers),
            criteria: FeatureToggle::Interacting,
        },
        StageDescriptor {
            work: StageWork::Selection,
            label: Some(PickingSystem::Selection),
            before: Some(PickingSystem::Events),
            after: Some(PickingSystem::Focus),
            criteria: FeatureToggle::Interacting,
        },
        StageDescriptor {
            work: StageWork::Events,
            label: Some(PickingSystem::Events),
            before: None,
            after: None,
            criteria: FeatureToggle::Interacting,
        },
    ]
}

/// The stages the highlighting plugin registers: the initial-material
/// capture strictly between the intersection pass and the resolver, and the
/// resolver before event emission, gated by the highlighting toggle.
pub open spec fn spec_highlightable_plugin_stages() -> Seq<StageDescriptor> {
    seq![
        StageDescriptor {
            work: StageWork::InitialHighlights,
            label: None,
            before: Some(PickingSystem::Highlighting),
            after: Some(PickingSystem::UpdateRaycast),
            criteria: FeatureToggle::Highlighting,
        },
        StageDescriptor {
            work: StageWork::Highlighting,
            label: Some(PickingSystem::Highlighting),
            before: Some(PickingSystem::Events),
            after: None,
            criteria: FeatureToggle::Highlighting,
        },
    ]
}

/// The stage the debug-cursor plugin registers.
pub open spec fn spec_debug_cursor_stage() -> StageDescriptor {
    StageDescriptor {
        work: StageWork::DebugCursor,
        label: None,
        before: None,
        after: Some(PickingSystem::UpdateRaycast),
        criteria: FeatureToggle::DebugCursor,
    }
}

/// The stage the event-logging plugin registers.
pub open spec fn spec_debug_events_stage() -> StageDescriptor {
    StageDescriptor {
        work: StageWork::DebugEvents,
        label: None,
        before: None,
        after: Some(PickingSystem::Events),
        criteria: FeatureToggle::DebugEvents,
    }
}

/// Registers the raycasting stage group and the feature-toggle record.
pub struct PickingPlugin;

impl PickingPlugin {
    /// Adds the ray-source, ray-build and intersection stages and marks the
    /// feature-toggle record as initialized.
    pub fn build(&self, app: &mut ScheduleBuilder)
        ensures
            final(app).stages@ == old(app).stages@ + spec_picking_plugin_stages(),
            final(app).picking_state_initialized,
            final(app).paused_initialized == old(app).paused_initialized,
            final(app).picking_events_initialized == old(app).picking_events_initialized,
            final(app).button_materials_initialized == old(app).button_materials_initialized,
    {
        let ghost orig = app.stages@;
        app.picking_state_initialized = true;
        app.add_stage(
            StageDescriptor {
                work: StageWork::UpdateBoundSphere,
                label: None,
                before: Some(PickingSystem::UpdateRaycast),
                after: None,
                criteria: FeatureToggle::Picking,
            },
        );
        app.add_stage(
            StageDescriptor {
                work: StageWork::UpdatePickSourcePositions,
                label: None,
                before: Some(PickingSystem::BuildRays),
                after: None,
                criteria: FeatureToggle::Picking,
            },
        );
        app.add_stage(
            StageDescriptor {
                work: StageWork::BuildRays,
                label: Some(PickingSystem::BuildRays),
                before: Some(PickingSystem::UpdateRaycast),
                after: None,
                criteria: FeatureToggle::Picking,
            },
        );
        app.add_stage(
            StageDescriptor {
                work: StageWork::UpdateRaycast,
                label: Some(PickingSystem::UpdateRaycast),
                before: None,
                after: None,
                criteria: FeatureToggle::Picking,
            },
        );
        proof {
            assert(app.stages@ =~= orig + spec_picking_plugin_stages());
        }
    }
}

/// Registers the interaction stage group, the pause gate and the event
/// channel.
pub struct InteractablePickingPlugin;

impl InteractablePickingPlugin {
    /// Adds the pause, focus, selection and event stages and marks the
    /// pause gate and the event channel as initialized.
    pub fn build(&self, app: &mut ScheduleBuilder)
        ensures
            final(app).stages@ == old(app).stages@ + spec_interactable_plugin_stages(),
            final(app).paused_initialized,
            final(app).picking_events_initialized,
            final(app).picking_state_initialized == old(app).picking_state_initialized,
            final(app).button_materials_initialized == old(app).button_materials_initialized,
    {
        let ghost orig = app.stages@;
        app.paused_initialized = true;
        app.picking_events_initialized = true;
        app.add_stage(
            StageDescriptor {
                work: StageWork::PauseForBlockers,
                label: Some(PickingSystem::PauseForBlockers),
                before: None,
                after: Some(PickingSystem::UpdateRaycast),
                criteria: FeatureToggle::Interacting,
            },
        );
        app.add_stage(
            StageDescriptor {
                work: StageWork::Focus,
                label: Some(PickingSystem::Focus),
                before: None,
                after: Some(PickingSystem::PauseForBlockers),
                criteria: FeatureToggle::Interacting,
            },
        );
        app.add_stage(
            StageDescriptor {
                work: StageWork::Selection,
                label: Some(PickingSystem::Selection),
                before: Some(PickingSystem::Events),
                after: Some(PickingSystem::Focus),
                criteria: FeatureToggle::Interacting,
            },
        );
        app.add_stage(
            StageDescriptor {
                work: StageWork::Events,
                label: Some(PickingSystem::Events),
                before: None,
                after: None,
                criteria: FeatureToggle::Interacting,
            },
        );
        proof {
            assert(app.stages@ =~= orig + spec_interactable_plugin_stages());
        }
    }
}

/// Registers the highlighting stage group and the global fallback
/// materials.
pub struct HighlightablePickingPlugin;

impl HighlightablePickingPlugin {
    /// Adds the initial-capture and resolver stages and marks the global
    /// fallback materials as initialized.
    pub fn build(&self, app: &mut ScheduleBuilder)
        ensures
            final(app).stages@ == old(app).stages@ + spec_highlightable_plugin_stages(),
            final(app).button_materials_initialized,
            final(app).picking_state_initialized == old(app).picking_state_initialized,
            final(app).paused_initialized == old(app).paused_initialized,
            final(app).picking_events_initialized == old(app).picking_events_initialized,
    {
        let ghost orig = app.stages@;
        app.button_materials_initialized = true;
        app.add_stage(
            StageDescriptor {
                work: StageWork::InitialHighlights,
                label: None,
                before: Some(PickingSystem::Highlighting),
                after: Some(PickingSystem::UpdateRaycast),
                criteria: FeatureToggle::Highlighting,
            },
        );
        app.add_stage(
            StageDescriptor {
                work: StageWork::Highlighting,
                label: Some(PickingSystem::Highlighting),
                before: Some(PickingSystem::Events),
                after: None,
                criteria: FeatureToggle::Highlighting,
            },
        );
        proof {
            assert(app.stages@ =~= orig + spec_highlightable_plugin_stages());
        }
    }
}

/// Registers the debug-cursor stage.
pub struct DebugCursorPickingPlugin;

impl DebugCursorPickingPlugin {
    /// Adds the debug-cursor stage after the intersection pass.
    pub fn build(&self, app: &mut ScheduleBuilder)
        ensures
            final(app).stages@ == old(app).stages@.push(spec_debug_cursor_stage()),
            final(app).picking_state_initialized == old(app).picking_state_initialized,
            final(app).paused_initialized == old(app).paused_initialized,
            final(app).picking_events_initialized == old(app).picking_events_initialized,
            final(app).button_materials_initialized == old(app).button_materials_initialized,
    {
        app.add_stage(
            StageDescriptor {
                work: StageWork::DebugCursor,
                label: None,
                before: None,
                after: Some(PickingSystem::UpdateRaycast),
                criteria: FeatureToggle::DebugCursor,
            },
        );
    }
}

/// Registers the event-logging stage.
pub struct DebugEventsPickingPlugin;

impl DebugEventsPickingPlugin {
    /// Adds the event-logging stage after event emission.
    pub fn build(&self, app: &mut ScheduleBuilder)
        ensures
            final(app).stages@ == old(app).stages@.push(spec_debug_events_stage()),
            final(app).picking_state_initialized == old(app).picking_state_initialized,
            final(app).paused_initialized == old(app).paused_initialized,
            final(app).picking_events_initialized == old(app).picking_events_initialized,
            final(app).button_materials_initialized == old(app).button_materials_initialized,
    {
        app.add_stage(
            StageDescriptor {
                work: StageWork::DebugEvents,
                label: None,
                before: None,
                after: Some(PickingSystem::Events),
                criteria: FeatureToggle::DebugEvents,
            },
        );
    }
}

/// Whether `k` occurs in `s`.
pub open spec fn spec_has_index(s: Seq<usize>, k: usize) -> bool {
    exists|j: int| 0 <= j < s.len() && s[j] == k
}

/// What a resolved execution order promises: it visits every registered
/// stage exactly once, no stage is constrained to precede itself, and a
/// stage never runs before one that the declared constraints force ahead
/// of it.
pub open spec fn spec_valid_order(stages: Seq<StageDescriptor>, order: Seq<usize>) -> bool {
    &&& order.len() == stages.len()
    &&& forall|i: int| 0 <= i < order.len() ==> (#[trigger] order[i]) < stages.len()
    &&& forall|i: int, j: int|
        0 <= i < j < order.len() ==> order[i] != order[j]
    &&& forall|k: usize| k < stages.len() ==> spec_has_index(order, k)
    &&& forall|i: int, j: int|
        0 <= i <= j < order.len() ==> !spec_must_precede(
            stages[order[j] as int],
            stages[order[i] as int],
        )
}

/// Whether some stage still awaiting placement (including the candidate
/// itself) is constrained to run before the candidate at `c`.
pub open spec fn spec_blocked(s: Seq<StageDescriptor>, rem: Seq<usize>, c: int) -> bool {
    exists|j: int|
        0 <= j < rem.len() && spec_must_precede(s[rem[j] as int], s[rem[c] as int])
}

/// The position at which `k` occurs in `ord` (meaningful only when it
/// occurs).
spec fn spec_pos_of(ord: Seq<usize>, k: usize) -> int {
    choose|p: int| 0 <= p < ord.len() && ord[p] == k
}

/// Among the stages of `rem`, one whose position in `ord` is least.
proof fn lemma_min_pos(ord: Seq<usize>, rem: Seq<usize>) -> (ci: int)
    requires
        rem.len() > 0,
    ensures
        0 <= ci < rem.len(),
        forall|t: int|
            0 <= t < rem.len() ==> spec_pos_of(ord, rem[ci]) <= spec_pos_of(ord, #[trigger] rem[t]),
    decreases rem.len(),
{
    if rem.len() == 1 {
        0
    } else {
        let prev = lemma_min_pos(ord, rem.drop_last());
        assert(forall|t: int| 0 <= t < rem.len() - 1 ==> rem.drop_last()[t] == #[trigger] rem[t]);
        let last = rem.len() - 1;
        if spec_pos_of(ord, rem[last]) < spec_pos_of(ord, rem[prev]) {
            last
        } else {
            prev
        }
    }
}

/// When every stage awaiting placement has another waiting stage (possibly
/// itself) constrained ahead of it, the constraints are cyclic: no valid
/// execution order of the whole graph exists.
proof fn lemma_stuck_has_no_order(s: Seq<StageDescriptor>, ord: Seq<usize>, rem: Seq<usize>)
    requires
        rem.len() > 0,
        forall|i: int| 0 <= i < rem.len() ==> (#[trigger] rem[i]) < s.len(),
        forall|c: int| 0 <= c < rem.len() ==> spec_blocked(s, rem, c),
    ensures
        !spec_valid_order(s, ord),
{
    if spec_valid_order(s, ord) {
        let ci = lemma_min_pos(ord, rem);
        let cstar = rem[ci];
        assert(spec_blocked(s, rem, ci));
        let j = choose|j: int|
            0 <= j < rem.len() && spec_must_precede(s[rem[j] as int], s[rem[ci] as int]);
        let b = rem[j];
        // Both stages occur in the order, so their positions are meaningful.
        assert(spec_has_index(ord, b));
        assert(spec_has_index(ord, cstar));
        let pb = spec_pos_of(ord, b);
        let pc = spec_pos_of(ord, cstar);
        assert(0 <= pb < ord.len() && ord[pb] == b);
        assert(0 <= pc < ord.len() && ord[pc] == cstar);
        // The blocked stage sits earliest in the order among the waiting
        // ones, yet its blocker — also waiting — would have to sit no
        // later: the order itself rules that out.
        assert(pc <= pb);
        assert(!spec_must_precede(s[ord[pb] as int], s[ord[pc] as int]));
        assert(false);
    }
}

/// Decides whether some stage still awaiting placement is constrained to
/// run before the candidate at `c`.
fn has_blocker(stages: &Vec<StageDescriptor>, remaining: &Vec<usize>, c: usize) -> (r: bool)
    requires
        c < remaining@.len(),
        forall|j: int| 0 <= j < remaining@.len() ==> (#[trigger] remaining@[j]) < stages@.len(),
    ensures
        r == spec_blocked(stages@, remaining@, c as int),
{
    let target: usize = remaining[c];
    let n: usize = remaining.len();
    let mut j: usize = 0;
    while j < n
        invariant
            n == remaining@.len(),
            c < remaining@.len(),
            j <= n,
            target == remaining@[c as int],
            forall|t: int| 0 <= t < remaining@.len() ==> (#[trigger] remaining@[t])
                < stages@.len(),
            forall|t: int|
                0 <= t < j ==> !spec_must_precede(
                    stages@[remaining@[t] as int],
                    stages@[remaining@[c as int] as int],
                ),
        decreases n - j,
    {
        let candidate: usize = remaining[j];
        if must_precede(&stages[candidate], &stages[target]) {
            return true;
        }
        j = j + 1;
    }
    false
}

/// Finds a stage awaiting placement that no other waiting stage is
/// constrained to precede, or reports that none exists (a constraint
/// cycle).
fn find_ready(stages: &Vec<StageDescriptor>, remaining: &Vec<usize>) -> (r: Option<usize>)
    requires
        forall|j: int| 0 <= j < remaining@.len() ==> (#[trigger] remaining@[j]) < stages@.len(),
    ensures
        match r {
            Some(c) => c < remaining@.len() && forall|j: int|
                0 <= j < remaining@.len() ==> !spec_must_precede(
                    stages@[remaining@[j] as int],
                    stages@[remaining@[c as int] as int],
                ),
            None => forall|c: int|
                0 <= c < remaining@.len() ==> spec_blocked(stages@, remaining@, c),
        },
{
    let n: usize = remaining.len();
    let mut c: usize = 0;
    while c < n
        invariant
            n == remaining@.len(),
            c <= n,
            forall|j: int| 0 <= j < remaining@.len() ==> (#[trigger] remaining@[j])
                < stages@.len(),
            forall|t: int| 0 <= t < c ==> spec_blocked(stages@, remaining@, t),
        decreases n - c,
    {
        if !has_blocker(stages, remaining, c) {
            return Some(c);
        }
        c = c + 1;
    }
    None
}

/// Resolves the declared ordering constraints into a linear execution
/// order at startup: the returned indices visit every registered stage
/// exactly once and respect every "before"/"after" edge. Returns `None`
/// exactly when the constraints are cyclic, so that no valid order exists
/// at all — the stage graph must be acyclic by construction, so the host
/// treats that as a startup failure.
pub fn resolve_order(stages: &Vec<StageDescriptor>) -> (r: Option<Vec<usize>>)
    ensures
        match r {
            Some(order) => spec_valid_order(stages@, order@),
            None => forall|order: Seq<usize>| !spec_valid_order(stages@, order),
        },
{
    let ghost s = stages@;
    let n: usize = stages.len();
    let mut remaining: Vec<usize> = Vec::new();
    let mut k: usize = 0;
    while k < n
        invariant
            remaining@.len() == k,
            k <= n,
            forall|j: int| 0 <= j < k ==> remaining@[j] == j,
        decreases n - k,
    {
        remaining.push(k);
        k = k + 1;
    }
    proof {
        assert forall|q: usize| q < n implies spec_has_index(remaining@, q) by {
            assert(remaining@[q as int] == q);
        }
    }
    let mut order: Vec<usize> = Vec::new();
    while remaining.len() > 0
        invariant
            s == stages@,
            n == s.len(),
            forall|j: int| 0 <= j < order@.len() ==> (#[trigger] order@[j]) < n,
            forall|j: int| 0 <= j < remaining@.len() ==> (#[trigger] remaining@[j]) < n,
            order@.len() + remaining@.len() == n,
            forall|i: int, j: int| 0 <= i < j < order@.len() ==> order@[i] != order@[j],
            forall|i: int, j: int| 0 <= i < j < remaining@.len() ==> remaining@[i] != remaining@[j],
            forall|i: int, j: int|
                0 <= i < remaining@.len() && 0 <= j < order@.len() ==> remaining@[i] != order@[j],
            forall|q: usize|
                q < n ==> spec_has_index(order@, q) || spec_has_index(remaining@, q),
            forall|i: int, j: int|
                0 <= i <= j < order@.len() ==> !spec_must_precede(
                    s[order@[j] as int],
                    s[order@[i] as int],
                ),
            forall|i: int, j: int|
                0 <= i < remaining@.len() && 0 <= j < order@.len() ==> !spec_must_precede(
                    s[remaining@[i] as int],
                    s[order@[j] as int],
                ),
        decreases remaining@.len(),
    {
        let found = find_ready(stages, &remaining);
        match found {
            None => {
                proof {
                    assert forall|ord: Seq<usize>| !spec_valid_order(s, ord) by {
                        lemma_stuck_has_no_order(s, ord, remaining@);
                    }
                }
                return None;
            },
            Some(c) => {
                let chosen: usize = remaining[c];
                let ghost old_rem = remaining@;
                let ghost old_ord = order@;
                remaining.remove(c);
                order.push(chosen);
                proof {
                    old_rem.remove_ensures(c as int);
                    assert forall|q: usize|
                        q < n implies spec_has_index(order@, q) || spec_has_index(
                        remaining@,
                        q,
                    ) by {
                        if spec_has_index(old_ord, q) {
                            let jj = choose|jj: int|
                                0 <= jj < old_ord.len() && old_ord[jj] == q;
                            assert(order@[jj] == q);
                        } else {
                            let jj = choose|jj: int|
                                0 <= jj < old_rem.len() && old_rem[jj] == q;
                            if jj == c {
                                assert(order@[order@.len() - 1] == q);
                            } else if jj < c {
                                assert(remaining@[jj] == q);
                            } else {
                                assert(remaining@[jj - 1] == q);
                            }
                        }
                    }
                }
            },
        }
    }
    Some(order)
}

/// The indices of one frame's enabled stages, in a constraint-respecting
/// execution order: every enabled stage appears exactly once, every
/// disabled stage is skipped entirely, and a stage never comes before one
/// the declared constraints force ahead of it. Returns `None` when the
/// constraints are cyclic.
pub fn frame_plan(state: &PickingPluginsState, stages: &Vec<StageDescriptor>) -> (r: Option<
    Vec<usize>,
>)
    ensures
        match r {
            Some(plan) => {
                &&& forall|i: int| 0 <= i < plan@.len() ==> (#[trigger] plan@[i]) < stages@.len()
                &&& forall|i: int|
                    0 <= i < plan@.len() ==> spec_toggle_enabled(
                        *state,
                        stages@[plan@[i] as int].criteria,
                    )
                &&& forall|i: int, j: int| 0 <= i < j < plan@.len() ==> plan@[i] != plan@[j]
                &&& forall|k: usize|
                    k < stages@.len() && spec_toggle_enabled(*state, stages@[k as int].criteria)
                        ==> spec_has_index(plan@, k)
                &&& forall|i: int, j: int|
                    0 <= i < j < plan@.len() ==> !spec_must_precede(
                        stages@[plan@[j] as int],
                        stages@[plan@[i] as int],
                    )
            },
            None => forall|order: Seq<usize>| !spec_valid_order(stages@, order),
        },
{
    let ghost s = stages@;
    let resolved = resolve_order(stages);
    match resolved {
        None => None,
        Some(order) => {
            let n: usize = order.len();
            let mut plan: Vec<usize> = Vec::new();
            let ghost mut pos: Seq<int> = Seq::empty();
            let mut i: usize = 0;
            while i < n
                invariant
                    s == stages@,
                    n == order@.len(),
                    spec_valid_order(s, order@),
                    i <= n,
                    plan@.len() == pos.len(),
                    forall|a: int|
                        0 <= a < plan@.len() ==> 0 <= #[trigger] pos[a] < i && plan@[a]
                            == order@[pos[a]],
                    forall|a: int, b: int| 0 <= a < b < pos.len() ==> pos[a] < pos[b],
                    forall|a: int|
                        0 <= a < plan@.len() ==> spec_toggle_enabled(
                            *state,
                            s[plan@[a] as int].criteria,
                        ),
                    forall|k: int|
                        0 <= k < i && spec_toggle_enabled(*state, s[order@[k] as int].criteria)
                            ==> spec_has_index(plan@, order@[k]),
                decreases n - i,
            {
                let idx: usize = order[i];
                if toggle_enabled(state, stages[idx].criteria) {
                    let ghost old_plan = plan@;
                    plan.push(idx);
                    proof {
                        pos = pos.push(i as int);
                        assert(plan@[plan@.len() - 1] == order@[i as int]);
                        assert forall|k: int|
                            0 <= k < i + 1 && spec_toggle_enabled(
                                *state,
                                s[order@[k] as int].criteria,
                            ) implies spec_has_index(plan@, order@[k]) by {
                            if k == i {
                                assert(plan@[plan@.len() - 1] == order@[k]);
                            } else {
                                assert(spec_has_index(old_plan, order@[k]));
                                let jj = choose|jj: int|
                                    0 <= jj < old_plan.len() && old_plan[jj] == order@[k];
                                assert(plan@[jj] == order@[k]);
                            }
                        }
                    }
                }
                i = i + 1;
            }
            proof {
                assert forall|a: int| 0 <= a < plan@.len() implies (#[trigger] plan@[a])
                    < stages@.len() by {
                    assert(plan@[a] == order@[pos[a]]);
                    assert(order@[pos[a]] < s.len());
                }
                assert forall|a: int, b: int| 0 <= a < b < plan@.len() implies plan@[a]
                    != plan@[b] by {
                    assert(pos[a] < pos[b]);
                }
                assert forall|a: int, b: int| 0 <= a < b < plan@.len() implies !spec_must_precede(
                    s[plan@[b] as int],
                    s[plan@[a] as int],
                ) by {
                    assert(pos[a] < pos[b]);
                    assert(plan@[a] == order@[pos[a]] && plan@[b] == order@[pos[b]]);
                }
                assert forall|k: usize|
                    k < s.len() && spec_toggle_enabled(*state, s[k as int].criteria) implies
                    spec_has_index(plan@, k) by {
                    assert(spec_has_index(order@, k));
                    let jj = choose|jj: int| 0 <= jj < order@.len() && order@[jj] == k;
                    assert(spec_toggle_enabled(*state, s[order@[jj] as int].criteria));
                }
            }
            Some(plan)
        },
    }
}

/// Registers the whole non-debug pipeline: raycasting, interaction and
/// highlighting stage groups with all their global resources.
pub struct DefaultPickingPlugins;

impl DefaultPickingPlugins {
    /// Builds the three core plugins in order.
    pub fn build(&self, app: &mut ScheduleBuilder)
        ensures
            final(app).stages@ == old(app).stages@ + spec_picking_plugin_stages()
                + spec_interactable_plugin_stages() + spec_highlightable_plugin_stages(),
            final(app).picking_state_initialized,
            final(app).paused_initialized,
            final(app).picking_events_initialized,
            final(app).button_materials_initialized,
    {
        let picking = PickingPlugin;
        let interactable = InteractablePickingPlugin;
        let highlightable = HighlightablePickingPlugin;
        picking.build(app);
        interactable.build(app);
        highlightable.build(app);
    }
}

} // verus!
