use vstd::prelude::*;
use crate::assembly::{column_lists, row_counts, row_sum};
use crate::constraints::base::{create_constraint, created, refs_view, AnyConstraint, Constraint, ConstraintType};
use crate::dogleg_solver::{initial_state, DogLegRun, ParametricDogLegSolver, Phase};
use crate::registration::{
    entity_ids, lemma_references_resolve, references_hold, registered, sync_outcome,
};
use crate::error::SolverError;
use crate::geometry::{Arc, Circle, EntityMap, GeometrySystem, Line, Point};

verus! {

/// How a solve ended, with the number of iterations it took and the norm of
/// the residual at its start and at its end.
#[derive(Debug, Clone, Copy)]
pub enum SolverResult<S> {
    /// The residual norm fell below the tolerance.
    Converged { iterations: usize, final_error: S, initial_error: S },
    /// The solve gave up: the iterations ran out, the residual norm stopped
    /// moving, or the trust radius fell below its floor.
    MaxIterationsReached { iterations: usize, final_error: S, initial_error: S },
}

/// The constraints of a sketch, in the order in which they were added.
#[derive(Debug, Clone)]
pub struct ConstraintGraph<S> {
    constraints: Vec<AnyConstraint<S>>,
}

impl<S: Copy> ConstraintGraph<S> {
    /// The constraints, in insertion order.
    pub closed spec fn constraints(&self) -> Seq<AnyConstraint<S>> {
        self.constraints@
    }

    /// A graph without constraints.
    pub fn new() -> (g: Self)
        ensures
            g.constraints() == Seq::<AnyConstraint<S>>::empty(),
    {
        ConstraintGraph { constraints: Vec::new() }
    }

    /// The constraints, in insertion order.
    pub fn get_constraints(&self) -> (cs: &[AnyConstraint<S>])
        ensures
            cs@ == self.constraints(),
    {
        self.constraints.as_slice()
    }

    /// Adds a constraint after those that are there.
    pub fn add(&mut self, constraint: AnyConstraint<S>)
        ensures
            final(self).constraints() == old(self).constraints().push(constraint),
    {
        self.constraints.push(constraint);
    }
}

/// Whether every operand names a parameter of an entity of the sketch.
pub open spec fn operands_resolve<S: Copy>(g: &GeometrySystem<S>, ops: Seq<(Seq<char>, int)>) -> bool {
    forall|k: int| 0 <= k < ops.len() ==> g.names_parameter((#[trigger] ops[k]).0, ops[k].1)
}

/// The coordinator: it owns the primitives, the constraints and the solver
/// settings, starts a solve and takes its outcome back into the primitives.
#[derive(Debug, Clone)]
pub struct ConstraintSolver<S> {
    geometry: GeometrySystem<S>,
    constraint_graph: ConstraintGraph<S>,
    solver: ParametricDogLegSolver,
}

impl<S: Copy> ConstraintSolver<S> {
    /// The primitives.
    pub closed spec fn geometry(&self) -> GeometrySystem<S> {
        self.geometry
    }

    /// The constraints.
    pub closed spec fn graph(&self) -> ConstraintGraph<S> {
        self.constraint_graph
    }

    /// The solver settings.
    pub closed spec fn settings(&self) -> ParametricDogLegSolver {
        self.solver
    }

    /// The coordinator's invariant: the primitives are well formed, and
    /// every constraint names parameters that entities of the sketch offer.
    pub open spec fn wf(&self) -> bool {
        &&& self.geometry().wf()
        &&& references_hold(&self.geometry(), self.graph().constraints())
    }

    /// A coordinator without primitives or constraints, with the default
    /// solver settings.
    pub fn new() -> (solver: Self)
        ensures
            solver.wf(),
            solver.geometry().points().keys().len() == 0,
            solver.geometry().lines().keys().len() == 0,
            solver.geometry().circles().keys().len() == 0,
            solver.geometry().arcs().keys().len() == 0,
            solver.graph().constraints().len() == 0,
            solver.settings().iteration_limit() == 100,
    {
        ConstraintSolver {
            geometry: GeometrySystem::new(),
            constraint_graph: ConstraintGraph::new(),
            solver: ParametricDogLegSolver::new(),
        }
    }

    /// Stores a point under its id and returns the id.
    pub fn add_point(&mut self, point: Point<S>) -> (id: String)
        requires
            old(self).wf(),
        ensures
            final(self).wf(),
            id@ == point.id@,
            final(self).graph() == old(self).graph(),
            final(self).settings() == old(self).settings(),
            final(self).geometry().points().contains(point.id@),
            final(self).geometry().points().value_of(point.id@) == point,
            final(self).geometry().lines() == old(self).geometry().lines(),
            final(self).geometry().circles() == old(self).geometry().circles(),
            final(self).geometry().arcs() == old(self).geometry().arcs(),
    {
        self.geometry.add_point(point)
    }

    /// Stores a circle under its id and returns the id.
    pub fn add_circle(&mut self, circle: Circle<S>) -> (id: String)
        requires
            old(self).wf(),
        ensures
            final(self).wf(),
            id@ == circle.id@,
            final(self).graph() == old(self).graph(),
            final(self).settings() == old(self).settings(),
            final(self).geometry().circles().contains(circle.id@),
            final(self).geometry().circles().value_of(circle.id@) == circle,
            final(self).geometry().points() == old(self).geometry().points(),
            final(self).geometry().lines() == old(self).geometry().lines(),
            final(self).geometry().arcs() == old(self).geometry().arcs(),
    {
        self.geometry.add_circle(circle)
    }

    /// Stores a line under its id and returns the id.
    pub fn add_line(&mut self, line: Line) -> (id: String)
        requires
            old(self).wf(),
        ensures
            final(self).wf(),
            id@ == line.id@,
            final(self).graph() == old(self).graph(),
            final(self).settings() == old(self).settings(),
            final(self).geometry().lines().contains(line.id@),
            final(self).geometry().lines().value_of(line.id@) == line,
            final(self).geometry().points() == old(self).geometry().points(),
            final(self).geometry().circles() == old(self).geometry().circles(),
            final(self).geometry().arcs() == old(self).geometry().arcs(),
    {
        self.geometry.add_line(line)
    }

    /// Stores an arc under its id and returns the id.
    pub fn add_arc(&mut self, arc: Arc<S>) -> (id: String)
        requires
            old(self).wf(),
        ensures
            final(self).wf(),
            id@ == arc.id@,
            final(self).graph() == old(self).graph(),
            final(self).settings() == old(self).settings(),
            final(self).geometry().arcs().contains(arc.id@),
            final(self).geometry().arcs().value_of(arc.id@) == arc,
            final(self).geometry().points() == old(self).geometry().points(),
            final(self).geometry().lines() == old(self).geometry().lines(),
            final(self).geometry().circles() == old(self).geometry().circles(),
    {
        self.geometry.add_arc(arc)
    }

    /// Adds the constraint that a description names. Refuses, changing
    /// nothing, a kind that is not implemented (`Unimplemented`) and a
    /// constraint that names a parameter which no entity of the sketch has
    /// (`UnknownReference`).
    pub fn add_constraint(&mut self, constraint_type: ConstraintType<S>) -> (r: Result<(), SolverError>)
        requires
            old(self).wf(),
        ensures
            final(self).wf(),
            final(self).geometry() == old(self).geometry(),
            final(self).settings() == old(self).settings(),
            match created(constraint_type) {
                Err(_) => r == Err::<(), SolverError>(SolverError::Unimplemented) && final(self).graph()
                    == old(self).graph(),
                Ok(constraint) => if operands_resolve(&old(self).geometry(), constraint.operands()) {
                    r is Ok && final(self).graph().constraints() == old(self).graph().constraints().push(
                        constraint,
                    )
                } else {
                    r == Err::<(), SolverError>(SolverError::UnknownReference) && final(self).graph()
                        == old(self).graph()
                },
            },
    {
        let constraint = match create_constraint(constraint_type) {
            Ok(constraint) => constraint,
            Err(_) => {
                return Err(SolverError::Unimplemented);
            },
        };
        let refs = constraint.parameter_refs();
        let ghost ops = constraint.operands();
        let mut k: usize = 0;
        while k < refs.len()
            invariant
                self.wf(),
                *self == *old(self),
                ops == refs_view(refs@),
                ops == constraint.operands(),
                created(constraint_type) == Ok::<AnyConstraint<S>, SolverError>(constraint),
                k <= refs@.len(),
                forall|j: int| 0 <= j < k ==> self.geometry().names_parameter((#[trigger] ops[j]).0, ops[j].1),
            decreases refs@.len() - k,
        {
            let known = match self.geometry.count_parameters(refs[k].entity.as_str()) {
                Some(count) => refs[k].local < count,
                None => false,
            };
            if !known {
                assert(!self.geometry().names_parameter(ops[k as int].0, ops[k as int].1));
                return Err(SolverError::UnknownReference);
            }
            k += 1;
        }
        self.constraint_graph.add(constraint);
        proof {
            let before = old(self).graph().constraints();
            let after = self.graph().constraints();
            assert forall|i: int, j: int| 0 <= i < after.len() && 0 <= j < after[i].operands().len() implies self.geometry().offers_parameter(
                (#[trigger] after[i].operands()[j]).0,
                after[i].operands()[j].1,
            ) by {
                if i < before.len() {
                    assert(after[i] == before[i]);
                    assert(old(self).geometry().offers_parameter(
                        before[i].operands()[j].0,
                        before[i].operands()[j].1,
                    ));
                } else {
                    assert(after[i] == constraint);
                    assert(self.geometry().names_parameter(ops[j].0, ops[j].1));
                }
            }
        }
        Ok(())
    }

    /// Starts a solve on the sketch as it stands.
    ///
    /// Fails with `DuplicateId` when two entities share an id, and with
    /// `DimensionMismatch` when the residual rows cannot be counted. It
    /// never fails for a reference: those were checked when the constraints
    /// were added.
    pub fn begin_solve(&self) -> (r: Result<DogLegRun<S>, SolverError>)
        requires
            self.wf(),
        ensures
            match r {
                Ok(run) => {
                    &&& run.wf()
                    &&& entity_ids(&self.geometry()).no_duplicates()
                    &&& registered(&run.manager(), &self.geometry())
                    &&& run.origin() == run.manager().values()
                    &&& run.state() == initial_state(
                        run.manager().values(),
                        run.manager().mask(),
                        self.settings().iteration_limit(),
                    )
                    &&& run.system().rows() == row_counts(self.graph().constraints())
                    &&& run.system().columns() == column_lists(&run.manager(), self.graph().constraints())
                },
                Err(e) => {
                    &&& e == SolverError::DuplicateId <==> !entity_ids(&self.geometry()).no_duplicates()
                    &&& e == SolverError::DimensionMismatch <==> entity_ids(&self.geometry()).no_duplicates()
                        && row_sum(
                        row_counts(self.graph().constraints()),
                        self.graph().constraints().len() as int,
                    ) > usize::MAX
                    &&& e == SolverError::DuplicateId || e == SolverError::DimensionMismatch
                },
            },
    {
        proof {
            if entity_ids(&self.geometry()).no_duplicates() {
                lemma_references_resolve(&self.geometry(), self.graph().constraints());
            }
        }
        self.solver.begin(&self.geometry, &self.constraint_graph)
    }

    /// Ends a solve: takes the parameters of a run that has ended back
    /// into the points, the circles and the arcs, in this order, and
    /// returns the run's result.
    ///
    /// Fails with `InvalidOperation`, touching nothing, while the run has
    /// not ended, and with the parameter manager's error at the first
    /// entity that the run does not know as it is now.
    pub fn finish_solve(&mut self, run: DogLegRun<S>) -> (r: Result<SolverResult<S>, SolverError>)
        requires
            old(self).wf(),
            run.wf(),
        ensures
            final(self).wf(),
            final(self).graph() == old(self).graph(),
            final(self).settings() == old(self).settings(),
            final(self).geometry().lines() == old(self).geometry().lines(),
            run.state().phase != Phase::Finished ==> r == Err::<SolverResult<S>, SolverError>(
                SolverError::InvalidOperation,
            ) && final(self).geometry() == old(self).geometry(),
            run.state().phase == Phase::Finished ==> {
                let pm = &run.manager();
                let before = old(self).geometry();
                let after = final(self).geometry();
                match r {
                    Ok(result) => {
                        &&& Some(result) == run.state().outcome
                        &&& sync_outcome(pm, before.points(), after.points(), None)
                        &&& sync_outcome(pm, before.circles(), after.circles(), None)
                        &&& sync_outcome(pm, before.arcs(), after.arcs(), None)
                    },
                    Err(e) => {
                        ||| {
                            &&& sync_outcome(pm, before.points(), after.points(), Some(e))
                            &&& after.circles() == before.circles()
                            &&& after.arcs() == before.arcs()
                        }
                        ||| {
                            &&& sync_outcome(pm, before.points(), after.points(), None)
                            &&& sync_outcome(pm, before.circles(), after.circles(), Some(e))
                            &&& after.arcs() == before.arcs()
                        }
                        ||| {
                            &&& sync_outcome(pm, before.points(), after.points(), None)
                            &&& sync_outcome(pm, before.circles(), after.circles(), None)
                            &&& sync_outcome(pm, before.arcs(), after.arcs(), Some(e))
                        }
                    },
                }
            },
    {
        run.finish(&mut self.geometry)
    }

    /// The point with this id; `None` where there is none.
    pub fn get_point(&self, id: String) -> (r: Option<&Point<S>>)
        requires
            self.wf(),
        ensures
            r is Some <==> self.geometry().points().contains(id@),
            r is Some ==> *r->Some_0 == self.geometry().points().value_of(id@),
    {
        self.geometry.get_point(id.as_str())
    }

    /// The circle with this id; `None` where there is none.
    pub fn get_circle(&self, id: String) -> (r: Option<&Circle<S>>)
        requires
            self.wf(),
        ensures
            r is Some <==> self.geometry().circles().contains(id@),
            r is Some ==> *r->Some_0 == self.geometry().circles().value_of(id@),
    {
        self.geometry.get_circle(id.as_str())
    }

    /// The line with this id; `None` where there is none.
    pub fn get_line(&self, id: String) -> (r: Option<&Line>)
        requires
            self.wf(),
        ensures
            r is Some <==> self.geometry().lines().contains(id@),
            r is Some ==> *r->Some_0 == self.geometry().lines().value_of(id@),
    {
        self.geometry.get_line(id.as_str())
    }

    /// The arc with this id; `None` where there is none.
    pub fn get_arc(&self, id: String) -> (r: Option<&Arc<S>>)
        requires
            self.wf(),
        ensures
            r is Some <==> self.geometry().arcs().contains(id@),
            r is Some ==> *r->Some_0 == self.geometry().arcs().value_of(id@),
    {
        self.geometry.get_arc(id.as_str())
    }

    /// All points, in the order in which their ids came.
    pub fn get_all_points(&self) -> (all: &EntityMap<Point<S>>)
        ensures
            *all == self.geometry().points(),
    {
        self.geometry.get_all_points()
    }

    /// All circles, in the order in which their ids came.
    pub fn get_all_circles(&self) -> (all: &EntityMap<Circle<S>>)
        ensures
            *all == self.geometry().circles(),
    {
        self.geometry.get_all_circles()
    }

    /// All lines, in the order in which their ids came.
    pub fn get_all_lines(&self) -> (all: &EntityMap<Line>)
        ensures
            *all == self.geometry().lines(),
    {
        self.geometry.get_all_lines()
    }

    /// All arcs, in the order in which their ids came.
    pub fn get_all_arcs(&self) -> (all: &EntityMap<Arc<S>>)
        ensures
            *all == self.geometry().arcs(),
    {
        self.geometry.get_all_arcs()
    }

    /// The constraints, in insertion order.
    pub fn get_constraints(&self) -> (cs: &[AnyConstraint<S>])
        ensures
            cs@ == self.graph().constraints(),
    {
        self.constraint_graph.get_constraints()
    }
}

impl<S: Copy> Default for ConstraintGraph<S> {
    /// A graph without constraints.
    fn default() -> (g: Self)
        ensures
            g.constraints() == Seq::<AnyConstraint<S>>::empty(),
    {
        Self::new()
    }
}

impl<S: Copy> Default for ConstraintSolver<S> {
    /// A coordinator without primitives or constraints, with the default
    /// solver settings.
    fn default() -> (solver: Self)
        ensures
            solver.wf(),
            solver.geometry().points().keys().len() == 0,
            solver.geometry().lines().keys().len() == 0,
            solver.geometry().circles().keys().len() == 0,
            solver.geometry().arcs().keys().len() == 0,
            solver.graph().constraints().len() == 0,
            solver.settings().iteration_limit() == 100,
    {
        Self::new()
    }
}

} // verus!
