//! Highlight-material tables and the highlight resolver.
//!
//! The resolver runs once per frame over the entities whose interaction or
//! selection state changed since the previous evaluation and decides which
//! material each of them should now display. Priority is strict and total:
//! Pressed > Hovered > (Selected > initial); the pause gate suppresses the
//! Pressed and Hovered tiers entirely while preserving the Selected tier.
//!
//! A preparatory sub-step captures each entity's initial displayed material
//! once, on first observation, so that it can be restored when the entity
//! returns to the idle, unselected state.

use vstd::prelude::*;

use crate::interaction::{Interaction, PausedForBlockers, Selection};

verus! {

/// Opaque reference to a material owned by the renderer's asset store.
///
/// The pipeline only reads and writes handle values; the resources they
/// refer to belong to the renderer collaborator.
#[derive(Clone, Copy, Debug, PartialEq, Eq, Structural, Hash)]
pub struct MaterialHandle(pub u64);

/// Per-entity highlight-material table: optional overrides for the hovered,
/// pressed and selected states, and the lazily captured initial material.
///
/// `initial` is set at most once, on first observation of the entity's
/// displayed material, and never overwritten thereafter.
#[derive(Clone, Copy, Debug)]
pub struct PickableButton {
    pub initial: Option<MaterialHandle>,
    pub hovered: Option<MaterialHandle>,
    pub pressed: Option<MaterialHandle>,
    pub selected: Option<MaterialHandle>,
}

impl Default for PickableButton {
    /// A fresh pickable entity has no overrides and no captured material.
    fn default() -> (r: Self)
        ensures
            r == (PickableButton { initial: None, hovered: None, pressed: None, selected: None }),
    {
        PickableButton { initial: None, hovered: None, pressed: None, selected: None }
    }
}

/// Global fallback materials, used for an entity with no override for the
/// state being displayed. Created once at module initialization and
/// immutable afterward.
#[derive(Clone, Copy, Debug)]
pub struct MeshButtonMaterials {
    pub hovered: MaterialHandle,
    pub pressed: MaterialHandle,
    pub selected: MaterialHandle,
}

impl MeshButtonMaterials {
    /// Builds the fallback table from the three handles the host obtained
    /// from its asset store.
    pub fn new(hovered: MaterialHandle, pressed: MaterialHandle, selected: MaterialHandle) -> (r:
        Self)
        ensures
            r == (MeshButtonMaterials { hovered, pressed, selected }),
    {
        MeshButtonMaterials { hovered, pressed, selected }
    }
}

/// One entity as the highlight stages see it: its interaction record, its
/// currently displayed material, its optional selection record, its
/// highlight-material table, and whether its interaction or selection
/// changed since the previous resolver run.
///
/// The host's change detection sets `changed`; entities whose state did not
/// change are skipped entirely by the resolver.
#[derive(Clone, Copy, Debug)]
pub struct HighlightEntry {
    pub interaction: Interaction,
    pub material: MaterialHandle,
    pub selection: Option<Selection>,
    pub button: PickableButton,
    pub changed: bool,
}

/// The pause gate as the resolver reads it: absent means unpaused.
pub open spec fn spec_paused(paused: Option<&PausedForBlockers>) -> bool {
    match paused {
        Some(p) => p.0,
        None => false,
    }
}

/// Material for the tier below Pressed and Hovered: the selected override
/// or fallback when the entity is selected, else its initial material
/// (which may still be uncaptured).
pub open spec fn spec_selected_or_initial(
    selection: Option<Selection>,
    button: PickableButton,
    globals: MeshButtonMaterials,
) -> Option<MaterialHandle> {
    match selection {
        Some(s) => if s.selected {
            match button.selected {
                Some(m) => Some(m),
                None => Some(globals.selected),
            }
        } else {
            button.initial
        },
        None => button.initial,
    }
}

/// The material the resolver chooses for one entity, or `None` when the
/// initial-material tier was reached before any capture occurred.
///
/// Priority is strict and total: Pressed > Hovered > (Selected > initial);
/// when `paused` holds, the interaction state is ignored entirely and only
/// the Selected tier survives.
pub open spec fn spec_chosen_material(
    paused: bool,
    interaction: Interaction,
    selection: Option<Selection>,
    button: PickableButton,
    globals: MeshButtonMaterials,
) -> Option<MaterialHandle> {
    if paused {
        spec_selected_or_initial(selection, button, globals)
    } else {
        match interaction {
            Interaction::Pressed => match button.pressed {
                Some(m) => Some(m),
                None => Some(globals.pressed),
            },
            Interaction::Hovered => match button.hovered {
                Some(m) => Some(m),
                None => Some(globals.hovered),
            },
            Interaction::Idle => spec_selected_or_initial(selection, button, globals),
        }
    }
}

/// Chooses the material one entity should now display.
///
/// Returns `None` exactly when the initial-material tier is reached while
/// `button.initial` is still uncaptured; the caller then skips the write
/// and reports a diagnostic.
pub fn resolve_highlight(
    paused: bool,
    interaction: Interaction,
    selection: Option<Selection>,
    button: &PickableButton,
    globals: &MeshButtonMaterials,
) -> (r: Option<MaterialHandle>)
    ensures
        r == spec_chosen_material(paused, interaction, selection, *button, *globals),
{
    if paused {
        selected_or_initial(selection, button, globals)
    } else {
        match interaction {
            Interaction::Pressed => match button.pressed {
                Some(m) => Some(m),
                None => Some(globals.pressed),
            },
            Interaction::Hovered => match button.hovered {
                Some(m) => Some(m),
                None => Some(globals.hovered),
            },
            Interaction::Idle => selected_or_initial(selection, button, globals),
        }
    }
}

/// The shared lower tier of the resolver: selected material when selected,
/// else the captured initial material.
fn selected_or_initial(
    selection: Option<Selection>,
    button: &PickableButton,
    globals: &MeshButtonMaterials,
) -> (r: Option<MaterialHandle>)
    ensures
        r == spec_selected_or_initial(selection, *button, *globals),
{
    match selection {
        Some(s) => if s.selected {
            match button.selected {
                Some(m) => Some(m),
                None => Some(globals.selected),
            }
        } else {
            button.initial
        },
        None => button.initial,
    }
}

/// The highlight-material table after the initial-capture sub-step has
/// observed the entity displaying `current`: the first observation captures
/// the material, later ones leave the table untouched.
pub open spec fn spec_captured_button(
    button: PickableButton,
    current: MaterialHandle,
) -> PickableButton {
    if button.initial is None {
        PickableButton { initial: Some(current), ..button }
    } else {
        button
    }
}

/// One entity after the initial-capture sub-step.
pub open spec fn spec_captured_entry(e: HighlightEntry) -> HighlightEntry {
    HighlightEntry { button: spec_captured_button(e.button, e.material), ..e }
}

/// One entity after the resolver ran over it: unchanged entities are
/// skipped entirely; for a changed entity the chosen material is written,
/// or nothing when no material could be determined.
pub open spec fn spec_resolved_entry(
    paused: bool,
    globals: MeshButtonMaterials,
    e: HighlightEntry,
) -> HighlightEntry {
    if !e.changed {
        e
    } else {
        match spec_chosen_material(paused, e.interaction, e.selection, e.button, globals) {
            Some(m) => HighlightEntry { material: m, ..e },
            None => e,
        }
    }
}

/// Whether the resolver reports a missing-initial-material diagnostic for
/// this entity: it was due for resolution but the initial tier was reached
/// before any capture occurred.
pub open spec fn spec_entry_warns(
    paused: bool,
    globals: MeshButtonMaterials,
    e: HighlightEntry,
) -> bool {
    e.changed && spec_chosen_material(paused, e.interaction, e.selection, e.button, globals)
        is None
}

/// Number of missing-initial-material diagnostics the resolver reports over
/// a run: exactly one per entity that warns.
pub open spec fn spec_warning_count(
    paused: bool,
    globals: MeshButtonMaterials,
    s: Seq<HighlightEntry>,
) -> nat
    decreases s.len(),
{
    if s.len() == 0 {
        0
    } else {
        spec_warning_count(paused, globals, s.drop_last()) + if spec_entry_warns(
            paused,
            globals,
            s.last(),
        ) {
            1nat
        } else {
            0nat
        }
    }
}

proof fn lemma_warning_count_le_len(
    paused: bool,
    globals: MeshButtonMaterials,
    s: Seq<HighlightEntry>,
)
    ensures
        spec_warning_count(paused, globals, s) <= s.len(),
    decreases s.len(),
{
    if s.len() > 0 {
        lemma_warning_count_le_len(paused, globals, s.drop_last());
    }
}

/// Initial-capture sub-step: for every entity carrying a highlight table
/// and a displayed material, capture the material as `initial` if it is
/// still unset. Idempotent: entities already captured are untouched, and
/// nothing but `button.initial` is ever written.
pub fn get_initial_mesh_button_material(query: &mut Vec<HighlightEntry>)
    ensures
        final(query)@.len() == old(query)@.len(),
        forall|i: int|
            0 <= i < old(query)@.len() ==> final(query)@[i] == spec_captured_entry(
                old(query)@[i],
            ),
{
    let ghost orig = query@;
    let n: usize = query.len();
    let mut i: usize = 0;
    while i < n
        invariant
            n == orig.len(),
            query@.len() == orig.len(),
            i <= n,
            forall|k: int| 0 <= k < i ==> query@[k] == spec_captured_entry(orig[k]),
            forall|k: int| i <= k < n ==> query@[k] == orig[k],
        decreases n - i,
    {
        let entry = query[i];
        if entry.button.initial.is_none() {
            query[i] = HighlightEntry {
                button: PickableButton { initial: Some(entry.material), ..entry.button },
                ..entry
            };
        }
        i = i + 1;
    }
}

/// Highlight resolver: decides, for every entity whose interaction or
/// selection changed this frame, which material it should now display, and
/// writes it.
///
/// Entities whose state did not change are skipped entirely: no write and
/// no diagnostic. Returns the number of missing-initial-material
/// diagnostics reported; each such entity keeps its prior material and the
/// frame continues.
pub fn mesh_highlighting(
    paused: Option<&PausedForBlockers>,
    global_button_materials: &MeshButtonMaterials,
    interaction_query: &mut Vec<HighlightEntry>,
) -> (warnings: usize)
    ensures
        final(interaction_query)@.len() == old(interaction_query)@.len(),
        forall|i: int|
            0 <= i < old(interaction_query)@.len() ==> final(interaction_query)@[i]
                == spec_resolved_entry(
                spec_paused(paused),
                *global_button_materials,
                old(interaction_query)@[i],
            ),
        warnings == spec_warning_count(
            spec_paused(paused),
            *global_button_materials,
            old(interaction_query)@,
        ),
{
    let is_paused = match paused {
        Some(p) => p.0,
        None => false,
    };
    let ghost orig = interaction_query@;
    let ghost g = *global_button_materials;
    let n: usize = interaction_query.len();
    let mut warnings: usize = 0;
    let mut i: usize = 0;
    while i < n
        invariant
            is_paused == spec_paused(paused),
            g == *global_button_materials,
            n == orig.len(),
            interaction_query@.len() == orig.len(),
            i <= n,
            forall|k: int|
                0 <= k < i ==> interaction_query@[k] == spec_resolved_entry(
                    is_paused,
                    g,
                    orig[k],
                ),
            forall|k: int| i <= k < n ==> interaction_query@[k] == orig[k],
            warnings == spec_warning_count(is_paused, g, orig.take(i as int)),
            warnings <= i,
        decreases n - i,
    {
        let entry = interaction_query[i];
        if entry.changed {
            let chosen = resolve_highlight(
                is_paused,
                entry.interaction,
                entry.selection,
                &entry.button,
                global_button_materials,
            );
            match chosen {
                Some(m) => {
                    interaction_query[i] = HighlightEntry { material: m, ..entry };
                },
                None => {
                    warnings = warnings + 1;
                },
            }
        }
        proof {
            assert(orig.take(i + 1).drop_last() =~= orig.take(i as int));
            assert(orig.take(i + 1).last() == orig[i as int]);
            lemma_warning_count_le_len(is_paused, g, orig.take(i + 1));
        }
        i = i + 1;
    }
    proof {
        assert(orig.take(n as int) =~= orig);
    }
    warnings
}

/// The material the pressed tier resolves to: the entity's pressed override
/// if present, else the global pressed fallback.
pub open spec fn spec_pressed_material(
    button: PickableButton,
    globals: MeshButtonMaterials,
) -> MaterialHandle {
    match button.pressed {
        Some(m) => m,
        None => globals.pressed,
    }
}

/// The material the hovered tier resolves to: the entity's hovered override
/// if present, else the global hovered fallback.
pub open spec fn spec_hovered_material(
    button: PickableButton,
    globals: MeshButtonMaterials,
) -> MaterialHandle {
    match button.hovered {
        Some(m) => m,
        None => globals.hovered,
    }
}

/// The material the selected tier resolves to: the entity's selected
/// override if present, else the global selected fallback.
pub open spec fn spec_selected_material(
    button: PickableButton,
    globals: MeshButtonMaterials,
) -> MaterialHandle {
    match button.selected {
        Some(m) => m,
        None => globals.selected,
    }
}

/// Pressed law: for every entity with pressed interaction, regardless of
/// its selection state, the resolver chooses the pressed override if
/// present, else the global pressed fallback — unless the pause gate holds,
/// in which case the pressed interaction is ignored entirely and only the
/// selected tier decides.
pub proof fn lemma_pressed_resolution(
    selection: Option<Selection>,
    button: PickableButton,
    globals: MeshButtonMaterials,
)
    ensures
        spec_chosen_material(false, Interaction::Pressed, selection, button, globals) == Some(
            spec_pressed_material(button, globals),
        ),
        spec_chosen_material(true, Interaction::Pressed, selection, button, globals)
            == spec_selected_or_initial(selection, button, globals),
{
}

/// Priority law: an entity simultaneously eligible for the hovered and the
/// selected treatment (hovered with a prior selection, pause gate off)
/// resolves to the hovered material, not the selected one.
pub proof fn lemma_hover_priority_over_selection(
    sel: Selection,
    button: PickableButton,
    globals: MeshButtonMaterials,
)
    requires
        sel.selected,
    ensures
        spec_chosen_material(false, Interaction::Hovered, Some(sel), button, globals) == Some(
            spec_hovered_material(button, globals),
        ),
{
}

/// Pause law: for an entity that is pressed and selected, raising the pause
/// gate moves the resolved material from the pressed tier to the selected
/// tier (entity override or global fallback).
pub proof fn lemma_pause_overrides_pressed(
    sel: Selection,
    button: PickableButton,
    globals: MeshButtonMaterials,
)
    requires
        sel.selected,
    ensures
        spec_chosen_material(false, Interaction::Pressed, Some(sel), button, globals) == Some(
            spec_pressed_material(button, globals),
        ),
        spec_chosen_material(true, Interaction::Pressed, Some(sel), button, globals) == Some(
            spec_selected_material(button, globals),
        ),
{
}

/// Idempotence law: an entity whose interaction and selection did not
/// change since the last resolver run is a no-op for the resolver — no
/// write and no diagnostic.
pub proof fn lemma_resolver_skips_unchanged(
    paused: bool,
    globals: MeshButtonMaterials,
    e: HighlightEntry,
)
    requires
        !e.changed,
    ensures
        spec_resolved_entry(paused, globals, e) == e,
        !spec_entry_warns(paused, globals, e),
{
}

/// The resolver never writes the highlight table, the interaction record,
/// the selection record or the change flag: only the displayed material.
pub proof fn lemma_resolver_writes_only_material(
    paused: bool,
    globals: MeshButtonMaterials,
    e: HighlightEntry,
)
    ensures
        spec_resolved_entry(paused, globals, e).button == e.button,
        spec_resolved_entry(paused, globals, e).interaction == e.interaction,
        spec_resolved_entry(paused, globals, e).selection == e.selection,
        spec_resolved_entry(paused, globals, e).changed == e.changed,
{
}

/// What the producer stages write into an entity at the start of one
/// frame, before the highlight stages run: the new interaction and
/// selection records, whether either moved since the last frame, and the
/// fresh value of the pause flag. None of the producers touches the
/// highlight table or the displayed material.
#[derive(Clone, Copy, Debug)]
pub struct FrameInput {
    pub paused: bool,
    pub interaction: Interaction,
    pub selection: Option<Selection>,
    pub changed: bool,
}

/// One entity after the producer stages of a frame wrote their fields.
pub open spec fn spec_apply_producers(e: HighlightEntry, input: FrameInput) -> HighlightEntry {
    HighlightEntry {
        interaction: input.interaction,
        selection: input.selection,
        changed: input.changed,
        ..e
    }
}

/// One entity after a whole frame: producer writes, then the
/// initial-capture sub-step, then the resolver.
pub open spec fn spec_frame_entry(
    globals: MeshButtonMaterials,
    e: HighlightEntry,
    input: FrameInput,
) -> HighlightEntry {
    spec_resolved_entry(input.paused, globals, spec_captured_entry(spec_apply_producers(e, input)))
}

/// One entity after any number of frames, oldest input first.
pub open spec fn spec_run_frames(
    globals: MeshButtonMaterials,
    e: HighlightEntry,
    inputs: Seq<FrameInput>,
) -> HighlightEntry
    decreases inputs.len(),
{
    if inputs.len() == 0 {
        e
    } else {
        spec_frame_entry(globals, spec_run_frames(globals, e, inputs.drop_last()), inputs.last())
    }
}

/// Capture-once law: over any number of frames of hover, press and select
/// cycling, the captured initial material never changes. An entity that
/// enters the pipeline already captured keeps its initial material forever;
/// one that enters uncaptured has its first displayed material captured on
/// the first frame and keeps that forever.
pub proof fn lemma_initial_captured_once(
    globals: MeshButtonMaterials,
    e: HighlightEntry,
    inputs: Seq<FrameInput>,
)
    ensures
        inputs.len() > 0 ==> spec_run_frames(globals, e, inputs).button.initial == (
        if e.button.initial is Some {
            e.button.initial
        } else {
            Some(e.material)
        }),
        e.button.initial is Some ==> spec_run_frames(globals, e, inputs).button.initial
            == e.button.initial,
    decreases inputs.len(),
{
    if inputs.len() > 0 {
        lemma_initial_captured_once(globals, e, inputs.drop_last());
    }
}

} // verus!
