//! The double-buffered generational stepper, driven by a pluggable, pure
//! transition rule.
//!
//! Advancing one generation evaluates the rule for every cell against the
//! frozen live grid and writes the results into a shadow grid; only once
//! every coordinate has been evaluated does the shadow grid become the new
//! live state, by ownership transfer. Writing results directly into the
//! live grid while still iterating would let later-evaluated cells see
//! already-updated neighbours from the same generation; the shadow buffer
//! makes generation steps independent of the order in which the cells are
//! evaluated.

use crate::cell::CellState;
use crate::grid::same_contents;
use crate::grid::Grid;
use crate::grid::GridError;
use vstd::prelude::*;

verus! {

broadcast use crate::grid::lemma_wf_dimension_bounds;

/// Whether a transition rule can be evaluated at every valid coordinate of
/// every well-formed grid of the given dimensions. A rule bound to a
/// universe must hold this for the universe's dimensions: the stepper may
/// hand it any coordinate of the live grid.
pub open spec fn rule_callable_on<F: Fn(u8, u8, &Grid) -> CellState>(
    rule: F,
    hsize: int,
    vsize: int,
) -> bool {
    forall|h: u8, v: u8, g: &Grid|
        g.wf() && g.hsize() == hsize && g.vsize() == vsize && g.in_bounds(h as int, v as int)
            ==> #[trigger] call_requires(rule, (h, v, g))
}

/// A universe contains everything needed for a cellular automaton to do
/// its thing: the live grid and the transition rule bound for the
/// universe's lifetime. The shadow grid that holds the next generation
/// while the current one is still being read lives entirely inside
/// [`Universe::update`]: it is transient working storage, never exposed.
pub struct Universe<F> where F: Fn(u8, u8, &Grid) -> CellState {
    /// The current state of the grid. Callers may read it and mutate it
    /// between generations; during [`Universe::update`] it is frozen.
    pub grid: Grid,
    /// The transformation function / cellular automaton: a pure function
    /// from a coordinate and the live grid to the cell's next state.
    pub automaton: F,
}

impl<F> Universe<F> where F: Fn(u8, u8, &Grid) -> CellState {
    /// Well-formedness: the live grid is well-formed and the bound rule
    /// can be evaluated at every valid coordinate of grids of the live
    /// grid's dimensions. Construction establishes this and every
    /// generation step preserves it.
    pub open spec fn wf(self) -> bool {
        &&& self.grid.wf()
        &&& rule_callable_on(self.automaton, self.grid.hsize(), self.grid.vsize())
    }

    /// Create a new universe with only dead cells, with a live grid of
    /// the given dimensions and the given rule bound for the lifetime of
    /// the universe.
    ///
    /// Fails with `InvalidDimension` if either size is 0, exactly as grid
    /// construction does.
    pub fn new(h_size: u8, v_size: u8, rules: F) -> (result: Result<Universe<F>, GridError>)
        requires
            rule_callable_on(rules, h_size as int, v_size as int),
        ensures
            result is Ok <==> (h_size != 0 && v_size != 0),
            result matches Err(e) ==> e == GridError::InvalidDimension,
            result matches Ok(u) ==> {
                &&& u.wf()
                &&& u.automaton == rules
                &&& u.grid.hsize() == h_size as int
                &&& u.grid.vsize() == v_size as int
                &&& forall|h: int, v: int|
                    u.grid.in_bounds(h, v) ==> #[trigger] u.grid.cell(h, v) == CellState::Dead
            },
    {
        let grid = match Grid::new(h_size, v_size) {
            Ok(g) => g,
            Err(e) => {
                return Err(e);
            },
        };
        Ok(Universe { grid, automaton: rules })
    }

    /// Update the universe according to the given state and rules: advance
    /// one generation.
    ///
    /// The rule for every cell observes the live grid exactly as it stood
    /// before the call; all results are written to the shadow grid and
    /// published together, so the step does not depend on the order in
    /// which the cells are evaluated.
    pub fn update(&mut self)
        requires
            old(self).wf(),
        ensures
            update_step(*old(self), *final(self)),
    {
        let hs = self.grid.get_horizontal_size();
        let vs = self.grid.get_vertical_size();
        // The next generation is computed into a shadow grid of the live
        // grid's dimensions; both are at least 1, so this cannot fail.
        let mut shadow = Grid::new(hs, vs).unwrap();
        let mut h: u8 = 0;
        while h < hs
            invariant
                self == old(self),
                old(self).wf(),
                hs as int == self.grid.hsize(),
                vs as int == self.grid.vsize(),
                h <= hs,
                shadow.wf(),
                shadow.hsize() == hs as int,
                shadow.vsize() == vs as int,
                forall|hh: u8, vv: u8|
                    (hh as int) < h as int && self.grid.in_bounds(hh as int, vv as int)
                        ==> call_ensures(
                        self.automaton,
                        (hh, vv, &self.grid),
                        #[trigger] shadow.cell(hh as int, vv as int),
                    ),
            decreases hs - h,
        {
            let mut v: u8 = 0;
            while v < vs
                invariant
                    self == old(self),
                    old(self).wf(),
                    hs as int == self.grid.hsize(),
                    vs as int == self.grid.vsize(),
                    h < hs,
                    v <= vs,
                    shadow.wf(),
                    shadow.hsize() == hs as int,
                    shadow.vsize() == vs as int,
                    forall|hh: u8, vv: u8|
                        (hh as int) < h as int && self.grid.in_bounds(hh as int, vv as int)
                            ==> call_ensures(
                            self.automaton,
                            (hh, vv, &self.grid),
                            #[trigger] shadow.cell(hh as int, vv as int),
                        ),
                    forall|vv: u8|
                        (vv as int) < v as int ==> call_ensures(
                            self.automaton,
                            (h, vv, &self.grid),
                            #[trigger] shadow.cell(h as int, vv as int),
                        ),
                decreases vs - v,
            {
                let state = (self.automaton)(h, v, &self.grid);
                shadow.write_cell(h, v, state);
                v = v + 1;
            }
            h = h + 1;
        }
        // Publish: the shadow grid holds the complete next generation, so
        // it becomes the new live grid by ownership transfer.
        self.grid = shadow;
    }
}

/// How one generation step relates the universe before the call to the
/// universe after it: the dimensions and the rule are unchanged, the new
/// universe is well-formed, and the state of every cell of the new live
/// grid is a result the rule allows for that coordinate on the frozen
/// pre-step live grid.
pub open spec fn update_step<F: Fn(u8, u8, &Grid) -> CellState>(
    pre: Universe<F>,
    post: Universe<F>,
) -> bool {
    &&& post.wf()
    &&& post.automaton == pre.automaton
    &&& post.grid.hsize() == pre.grid.hsize()
    &&& post.grid.vsize() == pre.grid.vsize()
    &&& forall|h: u8, v: u8|
        pre.grid.in_bounds(h as int, v as int) ==> call_ensures(
            pre.automaton,
            (h, v, &pre.grid),
            #[trigger] post.grid.cell(h as int, v as int),
        )
}

/// Along a chain of generation steps, every universe stays well-formed
/// and keeps the rule it started with.
proof fn lemma_chain_invariants<F: Fn(u8, u8, &Grid) -> CellState>(
    trace: Seq<Universe<F>>,
    i: int,
)
    requires
        trace.len() >= 1,
        trace[0].wf(),
        forall|j: int| 0 <= j < trace.len() - 1 ==> #[trigger] update_step(trace[j], trace[j + 1]),
        0 <= i < trace.len(),
    ensures
        trace[i].wf(),
        trace[i].automaton == trace[0].automaton,
    decreases i,
{
    if i > 0 {
        lemma_chain_invariants(trace, i - 1);
        let j = i - 1;
        assert(update_step(trace[j], trace[j + 1]));
    }
}

/// Whether a rule is the identity on cells: any state it can return for a
/// valid coordinate of a well-formed grid is the current state of that
/// very cell.
pub open spec fn rule_is_identity<F: Fn(u8, u8, &Grid) -> CellState>(rule: F) -> bool {
    forall|h: u8, v: u8, g: &Grid, state: CellState|
        g.wf() && g.in_bounds(h as int, v as int) && #[trigger] call_ensures(
            rule,
            (h, v, g),
            state,
        ) ==> state == g.cell(h as int, v as int)
}

/// Idempotence under an identity rule, for a single generation: a step of
/// a well-formed universe whose rule returns the current cell's own state
/// unchanged leaves the grid identical.
pub proof fn lemma_identity_rule_step_fixes_grid<F: Fn(u8, u8, &Grid) -> CellState>(
    pre: Universe<F>,
    post: Universe<F>,
)
    requires
        pre.wf(),
        rule_is_identity(pre.automaton),
        update_step(pre, post),
    ensures
        same_contents(post.grid, pre.grid),
{
    assert forall|h: int, v: int| post.grid.in_bounds(h, v) implies #[trigger] post.grid.cell(h, v)
        == pre.grid.cell(h, v) by {
        let hu = h as u8;
        let vu = v as u8;
        assert(pre.grid.in_bounds(hu as int, vu as int));
        assert(call_ensures(
            pre.automaton,
            (hu, vu, &pre.grid),
            post.grid.cell(hu as int, vu as int),
        ));
    }
}

/// Idempotence under an identity rule: a universe whose rule returns the
/// current cell's own state unchanged leaves the grid identical after any
/// number of generations. The sequence lists the universe before the
/// first step and after each step in turn.
pub proof fn lemma_identity_rule_fixes_grid<F: Fn(u8, u8, &Grid) -> CellState>(
    trace: Seq<Universe<F>>,
)
    requires
        trace.len() >= 1,
        trace[0].wf(),
        rule_is_identity(trace[0].automaton),
        forall|i: int| 0 <= i < trace.len() - 1 ==> #[trigger] update_step(trace[i], trace[i + 1]),
    ensures
        forall|i: int|
            0 <= i < trace.len() ==> #[trigger] same_contents(trace[i].grid, trace[0].grid),
    decreases trace.len(),
{
    if trace.len() > 1 {
        let prefix = trace.drop_last();
        assert(prefix[0] == trace[0]);
        assert forall|i: int|
            0 <= i < prefix.len() - 1 implies #[trigger] update_step(
            prefix[i],
            prefix[i + 1],
        ) by {
            assert(prefix[i] == trace[i]);
            assert(prefix[i + 1] == trace[i + 1]);
            assert(update_step(trace[i], trace[i + 1]));
        }
        lemma_identity_rule_fixes_grid(prefix);
        let n = trace.len() - 1;
        lemma_chain_invariants(trace, n - 1);
        let j = n - 1;
        assert(update_step(trace[j], trace[j + 1]));
        lemma_identity_rule_step_fixes_grid(trace[n - 1], trace[n]);
        assert forall|i: int|
            0 <= i < trace.len() implies #[trigger] same_contents(
            trace[i].grid,
            trace[0].grid,
        ) by {
            if i < n {
                assert(prefix[i] == trace[i]);
                assert(same_contents(prefix[i].grid, prefix[0].grid));
            } else {
                assert(prefix[j] == trace[j]);
                assert(same_contents(prefix[j].grid, prefix[0].grid));
                assert forall|h: int, v: int|
                    trace[n].grid.in_bounds(h, v) implies #[trigger] trace[n].grid.cell(h, v)
                    == trace[0].grid.cell(h, v) by {
                    assert(trace[n].grid.cell(h, v) == trace[n - 1].grid.cell(h, v));
                    assert(trace[n - 1].grid.in_bounds(h, v));
                    assert(trace[n - 1].grid.cell(h, v) == trace[0].grid.cell(h, v));
                }
                assert(same_contents(trace[n].grid, trace[0].grid));
            }
        }
    }
}

/// Whether every cell of a grid is dead.
pub open spec fn all_dead(g: Grid) -> bool {
    forall|h: int, v: int| g.in_bounds(h, v) ==> #[trigger] g.cell(h, v) == CellState::Dead
}

/// Whether a rule keeps a dead universe dead: any state it can return for
/// a valid coordinate of a well-formed, all-dead grid is dead. Every rule
/// that maps an all-dead neighbourhood to dead holds this, since on an
/// all-dead grid every neighbourhood it can read is all dead.
pub open spec fn rule_preserves_dead<F: Fn(u8, u8, &Grid) -> CellState>(rule: F) -> bool {
    forall|h: u8, v: u8, g: &Grid, state: CellState|
        g.wf() && all_dead(*g) && g.in_bounds(h as int, v as int) && #[trigger] call_ensures(
            rule,
            (h, v, g),
            state,
        ) ==> state == CellState::Dead
}

/// A dead universe is a fixed point, for a single generation: a step of a
/// well-formed universe whose grid is all dead, under a rule that keeps a
/// dead universe dead, leaves every cell dead.
pub proof fn lemma_dead_universe_step_stays_dead<F: Fn(u8, u8, &Grid) -> CellState>(
    pre: Universe<F>,
    post: Universe<F>,
)
    requires
        pre.wf(),
        rule_preserves_dead(pre.automaton),
        all_dead(pre.grid),
        update_step(pre, post),
    ensures
        all_dead(post.grid),
{
    assert forall|h: int, v: int| post.grid.in_bounds(h, v) implies #[trigger] post.grid.cell(h, v)
        == CellState::Dead by {
        let hu = h as u8;
        let vu = v as u8;
        assert(pre.grid.in_bounds(hu as int, vu as int));
        assert(call_ensures(
            pre.automaton,
            (hu, vu, &pre.grid),
            post.grid.cell(hu as int, vu as int),
        ));
    }
}

/// A dead universe is a fixed point: a universe on an all-dead grid under
/// a rule that keeps a dead universe dead remains all dead after any
/// number of generations. The sequence lists the universe before the
/// first step and after each step in turn.
pub proof fn lemma_dead_universe_stays_dead<F: Fn(u8, u8, &Grid) -> CellState>(
    trace: Seq<Universe<F>>,
)
    requires
        trace.len() >= 1,
        trace[0].wf(),
        rule_preserves_dead(trace[0].automaton),
        all_dead(trace[0].grid),
        forall|i: int| 0 <= i < trace.len() - 1 ==> #[trigger] update_step(trace[i], trace[i + 1]),
    ensures
        forall|i: int| 0 <= i < trace.len() ==> #[trigger] all_dead(trace[i].grid),
    decreases trace.len(),
{
    if trace.len() > 1 {
        let prefix = trace.drop_last();
        assert(prefix[0] == trace[0]);
        assert forall|i: int|
            0 <= i < prefix.len() - 1 implies #[trigger] update_step(
            prefix[i],
            prefix[i + 1],
        ) by {
            assert(prefix[i] == trace[i]);
            assert(prefix[i + 1] == trace[i + 1]);
            assert(update_step(trace[i], trace[i + 1]));
        }
        lemma_dead_universe_stays_dead(prefix);
        let n = trace.len() - 1;
        lemma_chain_invariants(trace, n - 1);
        let j = n - 1;
        assert(prefix[j] == trace[j]);
        assert(all_dead(prefix[j].grid));
        assert(update_step(trace[j], trace[j + 1]));
        lemma_dead_universe_step_stays_dead(trace[n - 1], trace[n]);
        assert forall|i: int| 0 <= i < trace.len() implies #[trigger] all_dead(trace[i].grid) by {
            if i < n {
                assert(prefix[i] == trace[i]);
                assert(all_dead(prefix[i].grid));
            }
        }
    }
}

} // verus!
