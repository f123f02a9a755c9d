//! The global mode dispatcher: the registry of editing surfaces and
//! their states, the record of the active surface, and the
//! activation/synchronization protocol that keeps a host surface's
//! visuals consistent with its mode.
//!
//! The dispatcher never holds a live reference to a host surface: it
//! keys its registry by the host's stable surface identities, and the
//! host answers, per call, whether the surface behind an identity is
//! still alive (`live`) and whether it has input focus (`focused`). A
//! synchronization decision is handed back as a [`SyncUpdate`] for the
//! host-side shim to perform; a closed surface simply yields no update.

use std::collections::HashMap;
use vstd::prelude::*;

use crate::state::{
    context_layer_spec, cursor_shape_spec, CursorShape, EditorState, KeyContext, Mode,
};

verus! {

/// The named, simply-parameterized commands this layer exposes to the
/// host's action system, besides the motions themselves.
#[derive(Clone, Copy, Debug, PartialEq, Eq, Structural)]
pub enum Actions {
    AddCursorBelow,
}

/// What one synchronization pushes onto one host surface: the cursor
/// shape to render and, for a focused surface, the keybinding context
/// layer to install (`None` means any installed layer is removed).
#[derive(Clone, Copy, Debug, PartialEq, Eq, Structural)]
pub struct SyncUpdate {
    pub surface: u64,
    pub cursor: CursorShape,
    pub layer: Option<KeyContext>,
}

/// The host-visible visual state of one surface, as far as this layer
/// drives it: the rendered cursor shape and the installed context
/// layer, if any.
#[derive(Clone, Copy, Debug, PartialEq, Eq, Structural)]
pub struct SurfaceVisuals {
    pub cursor: CursorShape,
    pub layer: Option<KeyContext>,
}

/// How a surface's visuals look after a synchronization update has been
/// performed on it.
pub open spec fn applied_sync_spec(visuals: SurfaceVisuals, update: SyncUpdate) -> SurfaceVisuals {
    SurfaceVisuals { cursor: update.cursor, layer: update.layer }
}

/// How a surface's visuals look after an optional update: untouched
/// when there was nothing to perform.
pub open spec fn visuals_after_sync(
    visuals: SurfaceVisuals,
    decision: Option<SyncUpdate>,
) -> SurfaceVisuals {
    match decision {
        Some(update) => applied_sync_spec(visuals, update),
        None => visuals,
    }
}

/// Performs a synchronization update on a surface's visual state: sets
/// the cursor shape, and installs or removes the context layer.
pub fn apply_sync(visuals: &mut SurfaceVisuals, update: &SyncUpdate)
    ensures
        *final(visuals) == applied_sync_spec(*old(visuals), *update),
{
    visuals.cursor = update.cursor;
    visuals.layer = update.layer;
}

/// Whether a keystroke the host observed is already settled, so that
/// downstream generic handling must be skipped, or should fall through
/// to the host's default handling.
#[derive(Clone, Copy, Debug, PartialEq, Eq, Structural)]
pub enum KeystrokeDisposition {
    SkipDownstream,
    HostDefault,
}

/// How an observed keystroke is to be treated: settled when a
/// layer-owned action already handled it, or when further keystrokes of
/// a pending sequence are on their way; host default handling
/// otherwise. Ordinary character input resolves to no layer-owned
/// action — in `Insert` mode in particular it always falls through.
pub open spec fn keystroke_disposition_spec(
    action_is_layer_owned: bool,
    has_pending_keystrokes: bool,
) -> KeystrokeDisposition {
    if action_is_layer_owned || has_pending_keystrokes {
        KeystrokeDisposition::SkipDownstream
    } else {
        KeystrokeDisposition::HostDefault
    }
}

/// The tap on the host's keystroke stream, invoked once per observed
/// keystroke after the host resolved it to zero or one actions. It
/// mutates nothing; it only decides whether downstream handling is
/// skipped.
pub fn observe_keystrokes(action_is_layer_owned: bool, has_pending_keystrokes: bool) -> (r:
    KeystrokeDisposition)
    ensures
        r == keystroke_disposition_spec(action_is_layer_owned, has_pending_keystrokes),
{
    if action_is_layer_owned || has_pending_keystrokes {
        KeystrokeDisposition::SkipDownstream
    } else {
        KeystrokeDisposition::HostDefault
    }
}

/// The mode dispatcher. One per process, initialized at startup and
/// alive for the process's lifetime; all reads and mutations happen on
/// the host's single UI thread, and every mutation goes through the
/// methods here so it can be followed by a synchronization decision.
pub struct Helix {
    active_editor: Option<u64>,
    enabled: bool,
    editor_states: HashMap<u64, EditorState>,
    default_state: EditorState,
}

impl Helix {
    /// The identity of the currently active (focused) surface, if any.
    pub closed spec fn active(self) -> Option<u64> {
        self.active_editor
    }

    /// The registry of recorded per-surface states, keyed by surface
    /// identity.
    pub closed spec fn states(self) -> Map<u64, EditorState> {
        self.editor_states@
    }

    /// Whether the layer is enabled at all; when it is not, the host's
    /// native behaviour applies unmodified.
    pub closed spec fn is_enabled(self) -> bool {
        self.enabled
    }

    /// The state used for surfaces with no recorded entry, and when no
    /// surface is active.
    pub closed spec fn fallback_state(self) -> EditorState {
        self.default_state
    }

    /// The effective state of one surface: its recorded entry, or the
    /// fallback state when it has none.
    pub open spec fn state_for(self, surface: u64) -> EditorState {
        if self.states().contains_key(surface) {
            self.states()[surface]
        } else {
            self.fallback_state()
        }
    }

    /// The effective state of the currently active surface, or the
    /// fallback state when none is active.
    pub open spec fn effective_state(self) -> EditorState {
        match self.active() {
            Some(surface) => self.state_for(surface),
            None => self.fallback_state(),
        }
    }

    /// What synchronizing one surface pushes onto it: nothing when the
    /// surface is gone; otherwise the cursor shape of its effective
    /// state, with the context layer installed while the surface holds
    /// focus and removed while it does not.
    pub open spec fn synchronize_decision(
        self,
        surface: u64,
        live: bool,
        focused: bool,
    ) -> Option<SyncUpdate> {
        if live {
            Some(
                SyncUpdate {
                    surface,
                    cursor: cursor_shape_spec(self.state_for(surface).mode),
                    layer: if focused {
                        Some(context_layer_spec(self.state_for(surface).mode))
                    } else {
                        None
                    },
                },
            )
        } else {
            None
        }
    }

    /// What synchronizing the active surface pushes: nothing when no
    /// surface is active or the active one is gone.
    pub open spec fn sync_decision(self, live: bool, focused: bool) -> Option<SyncUpdate> {
        match self.active() {
            Some(surface) => self.synchronize_decision(surface, live, focused),
            None => None,
        }
    }

    /// How activation changes the dispatcher: the surface becomes the
    /// active one, gains a default-mode entry if it never had one, and
    /// everything else stays as it was.
    pub open spec fn activation_post(pre: Helix, post: Helix, surface: u64) -> bool {
        &&& post.active() == Some(surface)
        &&& post.states() == if pre.states().contains_key(surface) {
            pre.states()
        } else {
            pre.states().insert(surface, EditorState { mode: Mode::Normal })
        }
        &&& post.is_enabled() == pre.is_enabled()
        &&& post.fallback_state() == pre.fallback_state()
    }

    /// A fresh dispatcher: disabled, with no active surface, an empty
    /// registry and `Normal` as the fallback mode.
    pub fn new() -> (r: Helix)
        ensures
            !r.is_enabled(),
            r.active() is None,
            r.states() == Map::<u64, EditorState>::empty(),
            r.fallback_state().mode is Normal,
    {
        Helix {
            active_editor: None,
            enabled: false,
            editor_states: HashMap::new(),
            default_state: EditorState { mode: Mode::Normal },
        }
    }

    /// Reads whether the layer is enabled.
    pub fn enabled(&self) -> (r: bool)
        ensures
            r == self.is_enabled(),
    {
        self.enabled
    }

    /// Turns the layer on or off, and hands back the synchronization
    /// the change calls for on the active surface.
    pub fn set_enabled(&mut self, enabled: bool, live: bool, focused: bool) -> (r: Option<
        SyncUpdate,
    >)
        ensures
            final(self).is_enabled() == enabled,
            final(self).active() == old(self).active(),
            final(self).states() == old(self).states(),
            final(self).fallback_state() == old(self).fallback_state(),
            r == final(self).sync_decision(live, focused),
    {
        self.enabled = enabled;
        self.sync_helix_settings(live, focused)
    }

    /// The effective state of the currently active surface, or the
    /// fallback state if none is active or the active surface has no
    /// recorded entry. Absence of state is a normal, handled case:
    /// this read never fails.
    pub fn state(&self) -> (r: &EditorState)
        ensures
            *r == self.effective_state(),
    {
        if let Some(active_editor) = &self.active_editor {
            if let Some(state) = self.editor_states.get(active_editor) {
                return state;
            }
        }
        &self.default_state
    }

    /// Records a surface as the active one, creating a default-mode
    /// entry the first time the surface is seen, and hands back the
    /// synchronization to perform on it. Activation strictly precedes
    /// the synchronization decision: the decision is computed from the
    /// updated registry.
    pub fn activate_editor(&mut self, surface: u64, focused: bool) -> (r: Option<SyncUpdate>)
        ensures
            Helix::activation_post(*old(self), *final(self), surface),
            r == final(self).sync_decision(true, focused),
    {
        self.active_editor = Some(surface);
        if !self.editor_states.contains_key(&surface) {
            self.editor_states.insert(surface, EditorState { mode: Mode::Normal });
        }
        self.sync_helix_settings(true, focused)
    }

    /// The focus-change notification from the host: inert while the
    /// layer is disabled, activation of the newly focused surface
    /// otherwise.
    pub fn on_editor_focused(&mut self, surface: u64, focused: bool) -> (r: Option<SyncUpdate>)
        ensures
            !old(self).is_enabled() ==> *final(self) == *old(self) && r is None,
            old(self).is_enabled() ==> Helix::activation_post(*old(self), *final(self), surface)
                && r == final(self).sync_decision(true, focused),
    {
        if !self.enabled {
            return None;
        }
        self.activate_editor(surface, focused)
    }

    /// Switches the mode recorded for the active surface, leaving the
    /// registry alone when no active surface has an entry, and hands
    /// back the synchronization the change calls for. The mutation
    /// strictly precedes the synchronization decision.
    pub fn switch_mode(&mut self, mode: Mode, live: bool, focused: bool) -> (r: Option<SyncUpdate>)
        ensures
            final(self).active() == old(self).active(),
            final(self).is_enabled() == old(self).is_enabled(),
            final(self).fallback_state() == old(self).fallback_state(),
            final(self).states() == (match old(self).active() {
                Some(surface) => if old(self).states().contains_key(surface) {
                    old(self).states().insert(surface, EditorState { mode })
                } else {
                    old(self).states()
                },
                None => old(self).states(),
            }),
            r == final(self).sync_decision(live, focused),
    {
        if let Some(surface) = self.active_editor {
            if self.editor_states.contains_key(&surface) {
                self.editor_states.insert(surface, EditorState { mode });
            }
        }
        self.sync_helix_settings(live, focused)
    }

    /// Synchronizes one surface: decides what the host must push onto
    /// it so its visuals match its effective state. Pure with respect
    /// to the dispatcher; the host performs the returned update.
    pub fn synchronize(&self, surface: u64, live: bool, focused: bool) -> (r: Option<SyncUpdate>)
        ensures
            r == self.synchronize_decision(surface, live, focused),
    {
        if !live {
            return None;
        }
        let state = match self.editor_states.get(&surface) {
            Some(state) => state,
            None => &self.default_state,
        };
        let layer = if focused {
            Some(state.keymap_context_layer())
        } else {
            None
        };
        Some(SyncUpdate { surface, cursor: state.cursor_shape(), layer })
    }

    /// Synchronizes the active surface, if there is one and the host
    /// still knows it.
    pub fn sync_helix_settings(&self, live: bool, focused: bool) -> (r: Option<SyncUpdate>)
        ensures
            r == self.sync_decision(live, focused),
    {
        match &self.active_editor {
            Some(surface) => self.synchronize(*surface, live, focused),
            None => None,
        }
    }
}

impl Default for Helix {
    fn default() -> (r: Helix)
        ensures
            !r.is_enabled(),
            r.active() is None,
            r.states() == Map::<u64, EditorState>::empty(),
            r.fallback_state().mode is Normal,
    {
        Helix::new()
    }
}

/// Reading the dispatcher right after activating a surface it has never
/// seen before yields a state in `Normal` mode: a new surface always
/// starts out in the default mode.
pub proof fn lemma_activate_fresh_reads_normal(pre: Helix, post: Helix, surface: u64)
    requires
        !pre.states().contains_key(surface),
        Helix::activation_post(pre, post, surface),
    ensures
        post.effective_state().mode is Normal,
{
    assert(post.states().contains_key(surface));
}

/// Synchronizing a surface twice in succession, with no state change in
/// between, leaves its host-visible visual state exactly as the first
/// synchronization left it.
pub proof fn lemma_synchronize_idempotent(
    hx: Helix,
    surface: u64,
    live: bool,
    focused: bool,
    visuals: SurfaceVisuals,
)
    ensures
        ({
            let once = visuals_after_sync(visuals, hx.synchronize_decision(surface, live, focused));
            visuals_after_sync(once, hx.synchronize_decision(surface, live, focused)) == once
        }),
{
}

/// While no surface has ever been recorded as active, no
/// synchronization decision carries anything: in particular, a disabled
/// layer, which ignores every focus notification and so never records
/// an active surface, never installs a context layer and never touches
/// a cursor.
pub proof fn lemma_no_active_surface_no_sync(hx: Helix, live: bool, focused: bool)
    requires
        hx.active() is None,
    ensures
        hx.sync_decision(live, focused) is None,
{
}

} // verus!
