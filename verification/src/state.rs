//! Editing modes and the per-surface editor state, with the two views
//! derived from the mode: the cursor shape the host should render and
//! the keybinding context layer it should consult.

use vstd::prelude::*;

verus! {

/// A closed enumeration of editing modes. Exactly one mode is active
/// per editing surface at any instant; a surface with no recorded
/// state uses the process-wide default, `Normal`.
#[derive(Clone, Copy, Debug, PartialEq, Eq, Structural)]
pub enum Mode {
    Normal,
    Insert,
}

impl Default for Mode {
    fn default() -> (r: Self)
        ensures
            r is Normal,
    {
        Mode::Normal
    }
}

/// How the host should render the cursor of a surface: a full block in
/// `Normal` mode, a thin bar in `Insert` mode.
#[derive(Clone, Copy, Debug, PartialEq, Eq, Structural)]
pub enum CursorShape {
    Block,
    Bar,
}

/// The keybinding context layer pushed onto a focused surface: the
/// active mode under the `helix_mode` key, and whether the layer's own
/// bindings take precedence over the host's defaults (the
/// `HelixControl` marker).
#[derive(Clone, Copy, Debug, PartialEq, Eq, Structural)]
pub struct KeyContext {
    pub helix_mode: Mode,
    pub helix_control: bool,
}

/// The cursor shape derived from a mode.
pub open spec fn cursor_shape_spec(mode: Mode) -> CursorShape {
    match mode {
        Mode::Normal => CursorShape::Block,
        Mode::Insert => CursorShape::Bar,
    }
}

/// Whether the layer intercepts the host's default bindings in the
/// given mode: in every mode except `Insert`, where ordinary character
/// input must reach the host unmodified.
pub open spec fn helix_controlled_spec(mode: Mode) -> bool {
    mode is Normal
}

/// The keybinding context layer derived from a mode.
pub open spec fn context_layer_spec(mode: Mode) -> KeyContext {
    KeyContext { helix_mode: mode, helix_control: helix_controlled_spec(mode) }
}

/// The name under which a mode appears as the `helix_mode` value of a
/// context layer.
pub open spec fn mode_name_spec(mode: Mode) -> Seq<char> {
    match mode {
        Mode::Normal => "normal"@,
        Mode::Insert => "insert"@,
    }
}

/// Renders a mode as the `helix_mode` value the host's key-binding
/// resolver matches on.
pub fn mode_name(mode: Mode) -> (r: &'static str)
    ensures
        r@ == mode_name_spec(mode),
{
    match mode {
        Mode::Normal => "normal",
        Mode::Insert => "insert",
    }
}

/// The state recorded for one tracked editing surface.
#[derive(Clone, Copy, Debug, PartialEq, Eq, Structural)]
pub struct EditorState {
    pub mode: Mode,
}

impl Default for EditorState {
    fn default() -> (r: Self)
        ensures
            r.mode is Normal,
    {
        EditorState { mode: Mode::Normal }
    }
}

impl EditorState {
    /// The cursor shape the host should render for this state: a
    /// function of the mode alone.
    pub fn cursor_shape(&self) -> (r: CursorShape)
        ensures
            r == cursor_shape_spec(self.mode),
    {
        match self.mode {
            Mode::Normal => CursorShape::Block,
            Mode::Insert => CursorShape::Bar,
        }
    }

    /// Whether the layer's bindings take precedence over the host's in
    /// this state: a function of the mode alone.
    pub fn helix_controlled(&self) -> (r: bool)
        ensures
            r == helix_controlled_spec(self.mode),
    {
        let is_insert_mode = matches!(self.mode, Mode::Insert);
        if !is_insert_mode {
            return true;
        }
        matches!(self.mode, Mode::Normal)
    }

    /// The keybinding context layer for this state: a function of the
    /// mode alone.
    pub fn keymap_context_layer(&self) -> (r: KeyContext)
        ensures
            r == context_layer_spec(self.mode),
    {
        let context = KeyContext {
            helix_mode: self.mode,
            helix_control: self.helix_controlled(),
        };
        context
    }
}

/// Both derived views of an editor state are pure functions of its
/// mode: two states in the same mode yield the same cursor shape, the
/// same control decision and the same context layer, regardless of how
/// either state came about.
pub proof fn lemma_derived_views_pure(a: EditorState, b: EditorState)
    requires
        a.mode == b.mode,
    ensures
        cursor_shape_spec(a.mode) == cursor_shape_spec(b.mode),
        helix_controlled_spec(a.mode) == helix_controlled_spec(b.mode),
        context_layer_spec(a.mode) == context_layer_spec(b.mode),
{
}

} // verus!
