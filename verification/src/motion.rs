//! The motion engine: pure functions that resolve a symbolic motion, a
//! display-layout snapshot, a starting display point, a sticky
//! selection goal and a repeat count into a new (point, goal) pair.

use vstd::prelude::*;

use crate::dispatcher::Helix;
use crate::state::Mode;

verus! {

/// A position in display space: a row of the laid-out (soft-wrapped)
/// text and a column within that row.
#[derive(Clone, Copy, Debug, PartialEq, Eq, Structural)]
pub struct DisplayPoint {
    pub row: u32,
    pub column: u32,
}

/// The sticky target column preserved across vertical motions, so that
/// successive moves stay visually aligned across rows of different
/// widths.
#[derive(Clone, Copy, Debug, PartialEq, Eq, Structural)]
pub enum SelectionGoal {
    NoGoal,
    Column(u32),
}

/// A point-in-time layout of a surface's text: the width, in columns,
/// of each display row after line wrapping. Every layout has at least
/// one row, and few enough rows that each has a `u32` index.
#[derive(Debug)]
pub struct LayoutSnapshot {
    pub line_lengths: Vec<u32>,
}

impl LayoutSnapshot {
    /// A layout is well formed when it has at least one display row and
    /// every row index fits in a `u32`.
    pub open spec fn wf(self) -> bool {
        1 <= self.line_lengths@.len() <= u32::MAX
    }

    /// The index of the last display row.
    pub open spec fn last_row(self) -> int {
        self.line_lengths@.len() - 1
    }

    /// A display point is valid for a layout when its row exists and
    /// its column is at most that row's width.
    pub open spec fn contains(self, point: DisplayPoint) -> bool {
        &&& point.row < self.line_lengths@.len()
        &&& point.column <= self.line_lengths@[point.row as int]
    }
}

/// The column a vertical motion aims at: the sticky goal column if one
/// is set, the current column otherwise.
pub open spec fn goal_column_spec(point: DisplayPoint, goal: SelectionGoal) -> u32 {
    match goal {
        SelectionGoal::Column(c) => c,
        SelectionGoal::NoGoal => point.column,
    }
}

/// One downward step: from any row but the last, move to the next row,
/// at the goal column clamped to that row's width, and make the goal
/// column sticky; from the last row, leave point and goal untouched.
pub open spec fn down_step_spec(
    map: LayoutSnapshot,
    point: DisplayPoint,
    goal: SelectionGoal,
) -> (DisplayPoint, SelectionGoal) {
    if point.row < map.last_row() {
        let target = goal_column_spec(point, goal);
        let width = map.line_lengths@[point.row + 1];
        let column = if target < width {
            target
        } else {
            width
        };
        (
            DisplayPoint { row: (point.row + 1) as u32, column },
            SelectionGoal::Column(target),
        )
    } else {
        (point, goal)
    }
}

/// A symbolic, stateless motion. All state needed to resolve a motion
/// is passed in at call time.
#[derive(Clone, Copy, Debug, PartialEq, Eq, Structural)]
pub enum Motion {
    Down,
}

impl Motion {
    /// The single-step displacement function of this motion.
    pub open spec fn step_spec(
        self,
        map: LayoutSnapshot,
        point: DisplayPoint,
        goal: SelectionGoal,
    ) -> (DisplayPoint, SelectionGoal) {
        match self {
            Motion::Down => down_step_spec(map, point, goal),
        }
    }

    /// The single-step displacement applied `n` times, threading the
    /// updated (point, goal) pair through each step.
    pub open spec fn steps_spec(
        self,
        map: LayoutSnapshot,
        point: DisplayPoint,
        goal: SelectionGoal,
        n: nat,
    ) -> (DisplayPoint, SelectionGoal)
        decreases n,
    {
        if n == 0 {
            (point, goal)
        } else {
            let (p, g) = self.step_spec(map, point, goal);
            self.steps_spec(map, p, g, (n - 1) as nat)
        }
    }

    /// What resolving this motion returns: the stepped (point, goal)
    /// pair, or nothing when the resolved point is identical to the
    /// starting point, so that the caller can skip a vacuous
    /// selection-change event.
    pub open spec fn move_point_spec(
        self,
        map: LayoutSnapshot,
        point: DisplayPoint,
        goal: SelectionGoal,
        times: nat,
    ) -> Option<(DisplayPoint, SelectionGoal)> {
        let (new_point, new_goal) = self.steps_spec(map, point, goal, times);
        if new_point == point {
            None
        } else {
            Some((new_point, new_goal))
        }
    }

    /// Resolves this motion against a layout: applies the single-step
    /// displacement `maybe_times` times (once when absent), and signals
    /// a no-op with `None`.
    pub fn move_point(
        &self,
        map: &LayoutSnapshot,
        point: DisplayPoint,
        goal: SelectionGoal,
        maybe_times: Option<usize>,
    ) -> (r: Option<(DisplayPoint, SelectionGoal)>)
        requires
            map.wf(),
            map.contains(point),
            maybe_times matches Some(n) ==> n >= 1,
        ensures
            r == self.move_point_spec(*map, point, goal, repeat_count_spec(maybe_times)),
            r matches Some(pg) ==> map.contains(pg.0),
    {
        let times = match maybe_times {
            Some(n) => n,
            None => 1,
        };
        let (new_point, new_goal) = match self {
            Motion::Down => down_display(map, point, goal, times),
        };
        if new_point != point {
            Some((new_point, new_goal))
        } else {
            None
        }
    }
}

/// The repeat count actually applied: the given count, or 1 when the
/// caller passed none.
pub open spec fn repeat_count_spec(maybe_times: Option<usize>) -> nat {
    match maybe_times {
        Some(n) => n as nat,
        None => 1,
    }
}

/// Applies the downward displacement `times` times, threading the
/// (point, goal) pair through each step.
fn down_display(
    map: &LayoutSnapshot,
    point: DisplayPoint,
    goal: SelectionGoal,
    times: usize,
) -> (r: (DisplayPoint, SelectionGoal))
    requires
        map.wf(),
        map.contains(point),
    ensures
        r == Motion::Down.steps_spec(*map, point, goal, times as nat),
        map.contains(r.0),
{
    let mut current = point;
    let mut current_goal = goal;
    let mut i: usize = 0;
    while i < times
        invariant
            i <= times,
            map.wf(),
            map.contains(current),
            (current, current_goal) == Motion::Down.steps_spec(*map, point, goal, i as nat),
        decreases times - i,
    {
        let ghost prev = current;
        let ghost prev_goal = current_goal;
        let next = down_step(map, current, current_goal);
        current = next.0;
        current_goal = next.1;
        proof {
            lemma_steps_unfold_right(*map, point, goal, (i + 1) as nat);
            assert(Motion::Down.steps_spec(*map, point, goal, (i + 1) as nat)
                == Motion::Down.step_spec(*map, prev, prev_goal));
        }
        i = i + 1;
    }
    (current, current_goal)
}

/// `n + 1` steps are `n` steps followed by one more, not only one step
/// followed by `n` more.
proof fn lemma_steps_unfold_right(
    map: LayoutSnapshot,
    point: DisplayPoint,
    goal: SelectionGoal,
    n: nat,
)
    requires
        n >= 1,
    ensures
        ({
            let (p, g) = Motion::Down.steps_spec(map, point, goal, (n - 1) as nat);
            Motion::Down.steps_spec(map, point, goal, n) == Motion::Down.step_spec(map, p, g)
        }),
    decreases n,
{
    let (p1, g1) = Motion::Down.step_spec(map, point, goal);
    if n == 1 {
        assert(Motion::Down.steps_spec(map, point, goal, 1) == Motion::Down.steps_spec(
            map,
            p1,
            g1,
            0,
        ));
    } else {
        lemma_steps_unfold_right(map, p1, g1, (n - 1) as nat);
        assert(Motion::Down.steps_spec(map, point, goal, n) == Motion::Down.steps_spec(
            map,
            p1,
            g1,
            (n - 1) as nat,
        ));
        assert(Motion::Down.steps_spec(map, point, goal, (n - 1) as nat)
            == Motion::Down.steps_spec(map, p1, g1, (n - 2) as nat));
    }
}

/// Applies a motion to one cursor: the resolved (point, goal) pair, or
/// the cursor unchanged when the motion was a no-op, so that the
/// host's selection mutation can map every cursor unconditionally.
pub fn move_cursor(
    m: Motion,
    times: Option<usize>,
    map: &LayoutSnapshot,
    cursor: DisplayPoint,
    goal: SelectionGoal,
) -> (r: (DisplayPoint, SelectionGoal))
    requires
        map.wf(),
        map.contains(cursor),
        times matches Some(n) ==> n >= 1,
    ensures
        r == resolved_or_start(m, *map, cursor, goal, repeat_count_spec(times)),
        map.contains(r.0),
{
    match m.move_point(map, cursor, goal, times) {
        Some(pg) => pg,
        None => (cursor, goal),
    }
}

/// The Normal-mode handler for a motion action: moves the cursor by the
/// resolved motion.
pub fn normal_motion(
    m: Motion,
    times: Option<usize>,
    map: &LayoutSnapshot,
    cursor: DisplayPoint,
    goal: SelectionGoal,
) -> (r: (DisplayPoint, SelectionGoal))
    requires
        map.wf(),
        map.contains(cursor),
        times matches Some(n) ==> n >= 1,
    ensures
        r == resolved_or_start(m, *map, cursor, goal, repeat_count_spec(times)),
        map.contains(r.0),
{
    move_cursor(m, times, map, cursor, goal)
}

/// What a motion action decides: nothing at all while the layer is
/// disabled or outside `Normal` mode, and the moved (point, goal) pair
/// of the active surface's cursor otherwise.
pub open spec fn motion_decision_spec(
    hx: Helix,
    m: Motion,
    map: LayoutSnapshot,
    cursor: DisplayPoint,
    goal: SelectionGoal,
    times: nat,
) -> Option<(DisplayPoint, SelectionGoal)> {
    if hx.is_enabled() && hx.effective_state().mode is Normal {
        Some(resolved_or_start(m, map, cursor, goal, times))
    } else {
        None
    }
}

/// The entry point of a motion action: reads the current mode from the
/// dispatcher and dispatches to the motion engine, or does nothing
/// while the layer is disabled — whatever the mode — or in `Insert`
/// mode, where the layer yields to the host.
pub fn motion(
    hx: &Helix,
    m: Motion,
    times: Option<usize>,
    map: &LayoutSnapshot,
    cursor: DisplayPoint,
    goal: SelectionGoal,
) -> (r: Option<(DisplayPoint, SelectionGoal)>)
    requires
        map.wf(),
        map.contains(cursor),
        times matches Some(n) ==> n >= 1,
    ensures
        r == motion_decision_spec(*hx, m, *map, cursor, goal, repeat_count_spec(times)),
        !hx.is_enabled() ==> r is None,
        r matches Some(pg) ==> map.contains(pg.0),
{
    if !hx.enabled() {
        return None;
    }
    match hx.state().mode {
        Mode::Normal => Some(normal_motion(m, times, map, cursor, goal)),
        Mode::Insert => None,
    }
}

/// What a resolution leaves the caller with: the resolved pair, or the
/// starting pair when the motion was a no-op.
pub open spec fn resolved_or_start(
    m: Motion,
    map: LayoutSnapshot,
    point: DisplayPoint,
    goal: SelectionGoal,
    times: nat,
) -> (DisplayPoint, SelectionGoal) {
    match m.move_point_spec(map, point, goal, times) {
        Some(pg) => pg,
        None => (point, goal),
    }
}

/// `n` resolutions of a motion, each with repeat count 1, threading the
/// (point, goal) pair forward from each resolution into the next.
pub open spec fn single_step_resolutions(
    m: Motion,
    map: LayoutSnapshot,
    point: DisplayPoint,
    goal: SelectionGoal,
    n: nat,
) -> (DisplayPoint, SelectionGoal)
    decreases n,
{
    if n == 0 {
        (point, goal)
    } else {
        let stepped = resolved_or_start(m, map, point, goal, 1);
        single_step_resolutions(m, map, stepped.0, stepped.1, (n - 1) as nat)
    }
}

/// A single step either moves the point to a strictly lower row or
/// leaves both point and goal exactly as they were.
proof fn lemma_step_moves_or_fixes(
    m: Motion,
    map: LayoutSnapshot,
    point: DisplayPoint,
    goal: SelectionGoal,
)
    requires
        map.wf(),
    ensures
        m.step_spec(map, point, goal) == (point, goal) || m.step_spec(
            map,
            point,
            goal,
        ).0.row > point.row,
{
}

/// Repeated steps never move the point to an earlier row.
proof fn lemma_steps_row_monotone(
    m: Motion,
    map: LayoutSnapshot,
    point: DisplayPoint,
    goal: SelectionGoal,
    n: nat,
)
    requires
        map.wf(),
    ensures
        m.steps_spec(map, point, goal, n).0.row >= point.row,
    decreases n,
{
    if n > 0 {
        let (p1, g1) = m.step_spec(map, point, goal);
        lemma_step_moves_or_fixes(m, map, point, goal);
        lemma_steps_row_monotone(m, map, p1, g1, (n - 1) as nat);
    }
}

/// Once a step leaves the pair unchanged, every further step does too.
proof fn lemma_steps_fixed_point(
    m: Motion,
    map: LayoutSnapshot,
    point: DisplayPoint,
    goal: SelectionGoal,
    n: nat,
)
    requires
        m.step_spec(map, point, goal) == (point, goal),
    ensures
        m.steps_spec(map, point, goal, n) == (point, goal),
    decreases n,
{
    if n > 0 {
        lemma_steps_fixed_point(m, map, point, goal, (n - 1) as nat);
    }
}

/// If `n` steps end on the starting point, they changed nothing at all,
/// the goal included.
proof fn lemma_steps_identity(
    m: Motion,
    map: LayoutSnapshot,
    point: DisplayPoint,
    goal: SelectionGoal,
    n: nat,
)
    requires
        map.wf(),
        m.steps_spec(map, point, goal, n).0 == point,
    ensures
        m.steps_spec(map, point, goal, n) == (point, goal),
    decreases n,
{
    if n > 0 {
        let (p1, g1) = m.step_spec(map, point, goal);
        lemma_step_moves_or_fixes(m, map, point, goal);
        if (p1, g1) == (point, goal) {
            lemma_steps_fixed_point(m, map, point, goal, n);
        } else {
            lemma_steps_row_monotone(m, map, p1, g1, (n - 1) as nat);
        }
    }
}

/// A resolution with repeat count 1, defaulted to the starting pair on
/// a no-op, is exactly one step.
proof fn lemma_single_resolution_is_step(
    m: Motion,
    map: LayoutSnapshot,
    point: DisplayPoint,
    goal: SelectionGoal,
)
    requires
        map.wf(),
    ensures
        resolved_or_start(m, map, point, goal, 1) == m.step_spec(map, point, goal),
{
    let (p1, g1) = m.step_spec(map, point, goal);
    assert(m.steps_spec(map, point, goal, 1) == m.steps_spec(map, p1, g1, 0));
    if p1 == point {
        lemma_steps_identity(m, map, point, goal, 1);
    }
}

/// Threading `n` single-step resolutions forward lands on the same pair
/// as `n` raw steps.
proof fn lemma_sequential_equals_steps(
    m: Motion,
    map: LayoutSnapshot,
    point: DisplayPoint,
    goal: SelectionGoal,
    n: nat,
)
    requires
        map.wf(),
    ensures
        single_step_resolutions(m, map, point, goal, n) == m.steps_spec(map, point, goal, n),
    decreases n,
{
    if n > 0 {
        lemma_single_resolution_is_step(m, map, point, goal);
        let (p1, g1) = m.step_spec(map, point, goal);
        lemma_sequential_equals_steps(m, map, p1, g1, (n - 1) as nat);
    }
}

/// Resolving a motion once with repeat count `n` leaves the caller with
/// the same (point, goal) pair as resolving it `n` times sequentially
/// with count 1, threading the pair forward through each resolution.
pub proof fn lemma_repeat_count_equals_sequential(
    m: Motion,
    map: LayoutSnapshot,
    point: DisplayPoint,
    goal: SelectionGoal,
    n: nat,
)
    requires
        map.wf(),
        n >= 1,
    ensures
        resolved_or_start(m, map, point, goal, n) == single_step_resolutions(
            m,
            map,
            point,
            goal,
            n,
        ),
{
    lemma_sequential_equals_steps(m, map, point, goal, n);
    if m.steps_spec(map, point, goal, n).0 == point {
        lemma_steps_identity(m, map, point, goal, n);
    }
}

/// From a point at the last row of a layout, resolving `Down` reports a
/// no-op for every repeat count: there is no further downward motion.
pub proof fn lemma_down_from_last_row_is_noop(
    map: LayoutSnapshot,
    point: DisplayPoint,
    goal: SelectionGoal,
    n: nat,
)
    requires
        point.row == map.last_row(),
        n >= 1,
    ensures
        Motion::Down.move_point_spec(map, point, goal, n) is None,
{
    lemma_steps_fixed_point(Motion::Down, map, point, goal, n);
}

/// One downward step of the motion engine.
fn down_step(map: &LayoutSnapshot, point: DisplayPoint, goal: SelectionGoal) -> (r: (
    DisplayPoint,
    SelectionGoal,
))
    requires
        map.wf(),
        map.contains(point),
    ensures
        r == down_step_spec(*map, point, goal),
        map.contains(r.0),
{
    let rows = map.line_lengths.len();
    if (point.row as usize) + 1 < rows {
        let new_row = point.row + 1;
        let width = map.line_lengths[new_row as usize];
        let target = match goal {
            SelectionGoal::Column(c) => c,
            SelectionGoal::NoGoal => point.column,
        };
        let column = if target < width {
            target
        } else {
            width
        };
        (DisplayPoint { row: new_row, column }, SelectionGoal::Column(target))
    } else {
        (point, goal)
    }
}

} // verus!
