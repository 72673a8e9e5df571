use picking::highlight::{
    get_initial_mesh_button_material, mesh_highlighting, resolve_highlight, HighlightEntry,
    MaterialHandle, MeshButtonMaterials, PickableButton,
};
use picking::interaction::{Interaction, PausedForBlockers, Selection};

fn globals() -> MeshButtonMaterials {
    MeshButtonMaterials::new(MaterialHandle(100), MaterialHandle(200), MaterialHandle(300))
}

fn bare_button() -> PickableButton {
    PickableButton {
        initial: None,
        hovered: None,
        pressed: None,
        selected: None,
    }
}

fn entry(
    interaction: Interaction,
    material: MaterialHandle,
    selection: Option<Selection>,
    button: PickableButton,
    changed: bool,
) -> HighlightEntry {
    HighlightEntry {
        interaction,
        material,
        selection,
        button,
        changed,
    }
}

#[test]
fn pressed_uses_override_when_present() {
    let g = globals();
    let mut b = bare_button();
    b.pressed = Some(MaterialHandle(7));
    let r = resolve_highlight(false, Interaction::Pressed, None, &b, &g);
    assert_eq!(r, Some(MaterialHandle(7)));
}

#[test]
fn pressed_falls_back_to_global() {
    let g = globals();
    let b = bare_button();
    let r = resolve_highlight(false, Interaction::Pressed, None, &b, &g);
    assert_eq!(r, Some(MaterialHandle(200)));
}

#[test]
fn pressed_ignores_selection_state() {
    let g = globals();
    let b = bare_button();
    let selected = Some(Selection { selected: true });
    let unselected = Some(Selection { selected: false });
    assert_eq!(
        resolve_highlight(false, Interaction::Pressed, selected, &b, &g),
        Some(MaterialHandle(200))
    );
    assert_eq!(
        resolve_highlight(false, Interaction::Pressed, unselected, &b, &g),
        Some(MaterialHandle(200))
    );
}

#[test]
fn pause_suppresses_pressed_tier() {
    let g = globals();
    let b = bare_button();
    let selected = Some(Selection { selected: true });
    // Unpaused: the pressed tier wins.
    assert_eq!(
        resolve_highlight(false, Interaction::Pressed, selected, &b, &g),
        Some(MaterialHandle(200))
    );
    // Paused: the pressed interaction is ignored, the selected tier decides.
    assert_eq!(
        resolve_highlight(true, Interaction::Pressed, selected, &b, &g),
        Some(MaterialHandle(300))
    );
}

#[test]
fn pause_prefers_selected_override() {
    let g = globals();
    let mut b = bare_button();
    b.selected = Some(MaterialHandle(33));
    let selected = Some(Selection { selected: true });
    assert_eq!(
        resolve_highlight(true, Interaction::Pressed, selected, &b, &g),
        Some(MaterialHandle(33))
    );
}

#[test]
fn hover_wins_over_selection() {
    let g = globals();
    let b = bare_button();
    let selected = Some(Selection { selected: true });
    // Hovered and selected at once, unpaused: the hovered material, not the
    // selected one.
    assert_eq!(
        resolve_highlight(false, Interaction::Hovered, selected, &b, &g),
        Some(MaterialHandle(100))
    );
}

#[test]
fn idle_unselected_restores_initial() {
    let g = globals();
    let mut b = bare_button();
    b.initial = Some(MaterialHandle(9));
    assert_eq!(
        resolve_highlight(false, Interaction::Idle, Some(Selection { selected: false }), &b, &g),
        Some(MaterialHandle(9))
    );
    assert_eq!(
        resolve_highlight(false, Interaction::Idle, None, &b, &g),
        Some(MaterialHandle(9))
    );
}

#[test]
fn idle_uncaptured_resolves_to_nothing() {
    let g = globals();
    let b = bare_button();
    assert_eq!(
        resolve_highlight(false, Interaction::Idle, None, &b, &g),
        None
    );
}

#[test]
fn initial_capture_sets_once() {
    let b = bare_button();
    let mut q = vec![entry(Interaction::Idle, MaterialHandle(9), None, b, false)];
    get_initial_mesh_button_material(&mut q);
    assert_eq!(q[0].button.initial, Some(MaterialHandle(9)));
    // The displayed material moves on, but a second capture pass never
    // overwrites the captured initial.
    q[0].material = MaterialHandle(77);
    get_initial_mesh_button_material(&mut q);
    assert_eq!(q[0].button.initial, Some(MaterialHandle(9)));
}

#[test]
fn capture_leaves_other_fields_alone() {
    let mut b = bare_button();
    b.hovered = Some(MaterialHandle(4));
    let mut q = vec![entry(
        Interaction::Hovered,
        MaterialHandle(9),
        Some(Selection { selected: true }),
        b,
        true,
    )];
    get_initial_mesh_button_material(&mut q);
    assert_eq!(q[0].button.hovered, Some(MaterialHandle(4)));
    assert_eq!(q[0].button.pressed, None);
    assert_eq!(q[0].interaction, Interaction::Hovered);
    assert_eq!(q[0].material, MaterialHandle(9));
    assert_eq!(q[0].selection, Some(Selection { selected: true }));
    assert!(q[0].changed);
}

#[test]
fn resolver_skips_unchanged_entities() {
    let g = globals();
    let b = bare_button();
    // Uncaptured and unselected: if this entry were resolved it would warn,
    // but it did not change, so there is no write and no diagnostic.
    let mut q = vec![entry(Interaction::Idle, MaterialHandle(9), None, b, false)];
    let warnings = mesh_highlighting(None, &g, &mut q);
    assert_eq!(warnings, 0);
    assert_eq!(q[0].material, MaterialHandle(9));
    assert_eq!(q[0].button.initial, None);
}

#[test]
fn missing_initial_warns_once_and_skips_write() {
    let g = globals();
    let b = bare_button();
    // Observed by the resolver before any capture: initial never set,
    // interaction idle, selection unselected.
    let mut q = vec![entry(
        Interaction::Idle,
        MaterialHandle(9),
        Some(Selection { selected: false }),
        b,
        true,
    )];
    let warnings = mesh_highlighting(None, &g, &mut q);
    assert_eq!(warnings, 1);
    assert_eq!(q[0].material, MaterialHandle(9));
}

#[test]
fn one_warning_per_uncaptured_entity() {
    let g = globals();
    let b = bare_button();
    let mut q = vec![
        entry(Interaction::Idle, MaterialHandle(1), None, b, true),
        entry(Interaction::Pressed, MaterialHandle(2), None, b, true),
        entry(Interaction::Idle, MaterialHandle(3), None, b, true),
    ];
    let warnings = mesh_highlighting(None, &g, &mut q);
    // The pressed entity resolves to the global fallback; the two idle,
    // uncaptured ones each report exactly one diagnostic.
    assert_eq!(warnings, 2);
    assert_eq!(q[1].material, MaterialHandle(200));
}

#[test]
fn paused_uncaptured_entity_warns_and_keeps_material() {
    let g = globals();
    let b = bare_button();
    // Paused, unselected, never captured: even a pressed interaction leads
    // to the initial tier, which is empty.
    let mut q = vec![entry(Interaction::Pressed, MaterialHandle(9), None, b, true)];
    let warnings = mesh_highlighting(Some(&PausedForBlockers(true)), &g, &mut q);
    assert_eq!(warnings, 1);
    assert_eq!(q[0].material, MaterialHandle(9));
}

#[test]
fn absent_pause_gate_means_unpaused() {
    let g = globals();
    let b = bare_button();
    let mut q = vec![entry(Interaction::Pressed, MaterialHandle(9), None, b, true)];
    let warnings = mesh_highlighting(None, &g, &mut q);
    assert_eq!(warnings, 0);
    assert_eq!(q[0].material, MaterialHandle(200));
}

#[test]
fn lowered_pause_gate_means_unpaused() {
    let g = globals();
    let b = bare_button();
    let mut q = vec![entry(Interaction::Pressed, MaterialHandle(9), None, b, true)];
    mesh_highlighting(Some(&PausedForBlockers(false)), &g, &mut q);
    assert_eq!(q[0].material, MaterialHandle(200));
}

#[test]
fn no_override_entity_through_five_frames() {
    // Entity E: no overrides, globals {hovered=100, pressed=200,
    // selected=300}, initial material 9.
    let g = globals();
    let b = bare_button();
    let mut q = vec![entry(Interaction::Idle, MaterialHandle(9), None, b, false)];

    // Frame 1: idle, unselected, nothing changed: the material stays as is.
    get_initial_mesh_button_material(&mut q);
    let w1 = mesh_highlighting(Some(&PausedForBlockers(false)), &g, &mut q);
    assert_eq!(w1, 0);
    assert_eq!(q[0].material, MaterialHandle(9));
    assert_eq!(q[0].button.initial, Some(MaterialHandle(9)));

    // Frame 2: interaction becomes hovered.
    q[0].interaction = Interaction::Hovered;
    q[0].changed = true;
    get_initial_mesh_button_material(&mut q);
    mesh_highlighting(Some(&PausedForBlockers(false)), &g, &mut q);
    assert_eq!(q[0].material, MaterialHandle(100));

    // Frame 3: interaction becomes pressed.
    q[0].interaction = Interaction::Pressed;
    q[0].changed = true;
    get_initial_mesh_button_material(&mut q);
    mesh_highlighting(Some(&PausedForBlockers(false)), &g, &mut q);
    assert_eq!(q[0].material, MaterialHandle(200));

    // Frame 4: interaction returns to idle, selection becomes selected.
    q[0].interaction = Interaction::Idle;
    q[0].selection = Some(Selection { selected: true });
    q[0].changed = true;
    get_initial_mesh_button_material(&mut q);
    mesh_highlighting(Some(&PausedForBlockers(false)), &g, &mut q);
    assert_eq!(q[0].material, MaterialHandle(300));

    // Frame 5: the pause gate rises, interaction becomes pressed (ignored
    // under pause), selection stays selected: the material remains the
    // selected one.
    q[0].interaction = Interaction::Pressed;
    q[0].changed = true;
    get_initial_mesh_button_material(&mut q);
    let w5 = mesh_highlighting(Some(&PausedForBlockers(true)), &g, &mut q);
    assert_eq!(w5, 0);
    assert_eq!(q[0].material, MaterialHandle(300));

    // The captured initial never moved through the whole cycle.
    assert_eq!(q[0].button.initial, Some(MaterialHandle(9)));
}

#[test]
fn pressed_override_entity_uses_its_material() {
    // Entity F: an override pressed-material, same globals.
    let g = globals();
    let mut b = bare_button();
    b.pressed = Some(MaterialHandle(222));
    let mut q = vec![entry(Interaction::Idle, MaterialHandle(9), None, b, false)];
    get_initial_mesh_button_material(&mut q);
    q[0].interaction = Interaction::Pressed;
    q[0].changed = true;
    mesh_highlighting(Some(&PausedForBlockers(false)), &g, &mut q);
    assert_eq!(q[0].material, MaterialHandle(222));
    assert_ne!(q[0].material, MaterialHandle(200));
}
