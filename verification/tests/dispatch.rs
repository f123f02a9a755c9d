use hx::dispatcher::{
    apply_sync, observe_keystrokes, Helix, KeystrokeDisposition, SurfaceVisuals, SyncUpdate,
};
use hx::state::{CursorShape, KeyContext, Mode};

#[test]
fn a_fresh_surface_reads_back_normal_mode() {
    let mut hx = Helix::new();
    hx.set_enabled(true, true, true);
    hx.on_editor_focused(11, true);
    assert_eq!(hx.state().mode, Mode::Normal);
}

#[test]
fn reads_fall_back_to_the_default_state_without_an_active_surface() {
    let hx = Helix::new();
    assert_eq!(hx.state().mode, Mode::Normal);
}

#[test]
fn focus_then_insert_then_focus_elsewhere() {
    let mut hx = Helix::new();
    hx.set_enabled(true, true, true);

    // Surface A is created and focused: it reads back Normal, renders a
    // block cursor, and gets the normal-mode context layer installed.
    let on_a = hx.on_editor_focused(1, true);
    assert_eq!(
        on_a,
        Some(SyncUpdate {
            surface: 1,
            cursor: CursorShape::Block,
            layer: Some(KeyContext { helix_mode: Mode::Normal, helix_control: true }),
        })
    );
    assert_eq!(hx.state().mode, Mode::Normal);

    // The enter-insert action: the mode flips, the cursor becomes a
    // bar, and the context layer updates to insert.
    let entered = hx.switch_mode(Mode::Insert, true, true);
    assert_eq!(
        entered,
        Some(SyncUpdate {
            surface: 1,
            cursor: CursorShape::Bar,
            layer: Some(KeyContext { helix_mode: Mode::Insert, helix_control: false }),
        })
    );
    assert_eq!(hx.state().mode, Mode::Insert);

    // Focus shifts to surface B, never seen: A loses its context layer,
    // B gets a default Normal state and its own block cursor.
    let off_a = hx.synchronize(1, true, false);
    assert_eq!(
        off_a,
        Some(SyncUpdate { surface: 1, cursor: CursorShape::Bar, layer: None })
    );
    let on_b = hx.on_editor_focused(2, true);
    assert_eq!(
        on_b,
        Some(SyncUpdate {
            surface: 2,
            cursor: CursorShape::Block,
            layer: Some(KeyContext { helix_mode: Mode::Normal, helix_control: true }),
        })
    );
    assert_eq!(hx.state().mode, Mode::Normal);

    // A's own recorded mode survives the focus change.
    let back_on_a = hx.on_editor_focused(1, true);
    assert_eq!(
        back_on_a,
        Some(SyncUpdate {
            surface: 1,
            cursor: CursorShape::Bar,
            layer: Some(KeyContext { helix_mode: Mode::Insert, helix_control: false }),
        })
    );
}

#[test]
fn a_disabled_layer_is_inert() {
    let mut hx = Helix::new();
    assert!(!hx.enabled());
    // Focus notifications do nothing: no update, no recorded surface.
    assert_eq!(hx.on_editor_focused(1, true), None);
    assert_eq!(hx.on_editor_focused(2, true), None);
    // Nothing was recorded, so nothing is ever synchronized: no context
    // layer is ever installed.
    assert_eq!(hx.sync_helix_settings(true, true), None);
    assert_eq!(hx.state().mode, Mode::Normal);
}

#[test]
fn synchronize_is_idempotent_on_the_host_visuals() {
    let mut hx = Helix::new();
    hx.set_enabled(true, true, true);
    hx.on_editor_focused(5, true);
    hx.switch_mode(Mode::Insert, true, true);

    let mut visuals = SurfaceVisuals {
        cursor: CursorShape::Block,
        layer: Some(KeyContext { helix_mode: Mode::Normal, helix_control: true }),
    };
    let first = hx.synchronize(5, true, true).unwrap();
    apply_sync(&mut visuals, &first);
    let after_first = visuals;
    let second = hx.synchronize(5, true, true).unwrap();
    apply_sync(&mut visuals, &second);
    assert_eq!(visuals, after_first);
}

#[test]
fn a_closed_surface_yields_no_update_and_the_default_state() {
    let mut hx = Helix::new();
    hx.set_enabled(true, true, true);
    hx.on_editor_focused(9, true);
    hx.switch_mode(Mode::Insert, true, true);
    // The host closed the surface: resolving it fails, so synchronizing
    // yields nothing rather than an error.
    assert_eq!(hx.synchronize(9, false, true), None);
    assert_eq!(hx.sync_helix_settings(false, true), None);
}

#[test]
fn switch_mode_without_an_active_surface_changes_nothing() {
    let mut hx = Helix::new();
    hx.set_enabled(true, true, true);
    assert_eq!(hx.switch_mode(Mode::Insert, true, true), None);
    assert_eq!(hx.state().mode, Mode::Normal);
}

#[test]
fn unfocused_surfaces_get_their_layer_removed_on_sync() {
    let mut hx = Helix::new();
    hx.set_enabled(true, true, true);
    hx.on_editor_focused(3, true);
    let update = hx.synchronize(3, true, false).unwrap();
    assert_eq!(update.layer, None);
    assert_eq!(update.cursor, CursorShape::Block);
}

#[test]
fn apply_sync_installs_and_removes_layers() {
    let mut visuals = SurfaceVisuals { cursor: CursorShape::Block, layer: None };
    let layer = KeyContext { helix_mode: Mode::Insert, helix_control: false };
    apply_sync(
        &mut visuals,
        &SyncUpdate { surface: 4, cursor: CursorShape::Bar, layer: Some(layer) },
    );
    assert_eq!(visuals, SurfaceVisuals { cursor: CursorShape::Bar, layer: Some(layer) });
    apply_sync(
        &mut visuals,
        &SyncUpdate { surface: 4, cursor: CursorShape::Block, layer: None },
    );
    assert_eq!(visuals, SurfaceVisuals { cursor: CursorShape::Block, layer: None });
}

#[test]
fn keystrokes_settled_by_the_layer_skip_downstream_handling() {
    assert_eq!(
        observe_keystrokes(true, false),
        KeystrokeDisposition::SkipDownstream
    );
    assert_eq!(
        observe_keystrokes(true, true),
        KeystrokeDisposition::SkipDownstream
    );
}

#[test]
fn pending_keystroke_sequences_skip_downstream_handling() {
    assert_eq!(
        observe_keystrokes(false, true),
        KeystrokeDisposition::SkipDownstream
    );
}

#[test]
fn ordinary_input_falls_through_to_the_host() {
    assert_eq!(
        observe_keystrokes(false, false),
        KeystrokeDisposition::HostDefault
    );
}
