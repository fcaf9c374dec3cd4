use vstd::prelude::*;
use crate::assembly::{column_lists, row_counts, row_sum, SystemLayout};
use crate::error::SolverError;
use crate::geometry::GeometrySystem;
use crate::parameter_system::{masked, EntityType, ParameterManager, ParametricEntity};
use crate::geometry::EntityMap;
use crate::registration::{
    entity_ids, lemma_mirrors_extends, lemma_prefix_duplicates, lemma_registered_resolves_all, mirrors,
    register_all, registered, served, sketch_resolves, sync_all, sync_outcome, synced,
};
use crate::solver::{ConstraintGraph, SolverResult};
use crate::trust_region::{StepQuality, TrustRadius};

verus! {

/// What a run is waiting for.
#[derive(Debug, Clone, Copy, PartialEq, Eq, Structural)]
pub enum Phase {
    /// The norm of the residual at the current parameters.
    AwaitResidual,
    /// The parameters that the next step leads to.
    AwaitCandidate,
    /// The quality of the step that was just tried.
    AwaitQuality,
    /// Nothing: the run has ended.
    Finished,
}

/// What the numerical side reports to a run.
#[derive(Debug, Clone)]
pub enum SolverEvent<S> {
    /// The norm of the residual at the current parameters, with two
    /// comparisons on it: whether it is below the tolerance, and whether it
    /// is within the stagnation threshold of the norm reported before.
    Residual { norm: S, converged: bool, stalled: bool },
    /// The parameter vector that the step leads to, one value per parameter.
    Candidate(Vec<S>),
    /// The quality of the step that was tried.
    Quality(StepQuality),
}

/// What a run asks of the numerical side next.
#[derive(Debug, Clone, Copy)]
pub enum SolverAction<S> {
    /// Assemble the residual at the current parameters and report its norm.
    Evaluate,
    /// Compute a dog-leg step within this trust radius and report the
    /// parameters that it leads to.
    ProposeStep { radius: TrustRadius },
    /// Assemble the residual at the parameters of the tentative step and
    /// report how the step did against the local model.
    JudgeStep,
    /// Nothing more: the solve has ended with this result.
    Finish(SolverResult<S>),
}

/// How often in a row the residual norm may stand still before the run gives up.
pub const STAGNATION_LIMIT: usize = 5;

/// The state of a run, as the transition function sees it.
pub struct RunState<S> {
    pub phase: Phase,
    /// The number of steps tried so far.
    pub steps: nat,
    pub max_iterations: nat,
    pub radius: TrustRadius,
    /// How often in a row the residual norm has stood still.
    pub stagnation: nat,
    /// The first residual norm that was reported.
    pub initial_norm: Option<S>,
    /// The residual norm that was reported last.
    pub last_norm: Option<S>,
    /// The current parameter vector.
    pub values: Seq<S>,
    /// The parameter vector from before the tentative step.
    pub saved: Seq<S>,
    pub mask: Seq<bool>,
    pub outcome: Option<SolverResult<S>>,
}

/// The state after a residual norm was reported.
///
/// A norm below the tolerance ends the run as converged. Otherwise the run
/// ends without convergence when the iterations have run out, or when the
/// norm has stood still more often in a row than the limit allows. Else a
/// step is asked for.
pub open spec fn after_residual<S>(s: RunState<S>, norm: S, converged: bool, stalled: bool) -> RunState<
    S,
> {
    let first = match s.initial_norm {
        Some(n) => n,
        None => norm,
    };
    let iterations = (if s.steps < s.max_iterations {
        s.steps + 1
    } else {
        s.max_iterations
    }) as usize;
    let seen = RunState { initial_norm: Some(first), last_norm: Some(norm), ..s };
    if converged {
        RunState {
            phase: Phase::Finished,
            outcome: Some(SolverResult::Converged { iterations, final_error: norm, initial_error: first }),
            ..seen
        }
    } else if s.steps >= s.max_iterations {
        RunState {
            phase: Phase::Finished,
            outcome: Some(
                SolverResult::MaxIterationsReached { iterations, final_error: norm, initial_error: first },
            ),
            ..seen
        }
    } else if stalled && s.stagnation >= STAGNATION_LIMIT {
        RunState {
            phase: Phase::Finished,
            stagnation: s.stagnation + 1,
            outcome: Some(
                SolverResult::MaxIterationsReached { iterations, final_error: norm, initial_error: first },
            ),
            ..seen
        }
    } else {
        RunState {
            phase: Phase::AwaitCandidate,
            stagnation: if stalled {
                s.stagnation + 1
            } else {
                0
            },
            ..seen
        }
    }
}

/// The state after a candidate was reported: the current parameters are
/// saved, and the free ones move to the candidate's values.
pub open spec fn after_candidate<S>(s: RunState<S>, candidate: Seq<S>) -> RunState<S> {
    if candidate.len() == s.values.len() {
        RunState {
            phase: Phase::AwaitQuality,
            saved: s.values,
            values: masked(s.values, candidate, s.mask),
            ..s
        }
    } else {
        s
    }
}

/// The state after the quality of the tentative step was reported: a
/// rejected step is taken back, the trust radius is adjusted, and the run
/// ends without convergence when the radius has fallen below its floor.
pub open spec fn after_quality<S>(s: RunState<S>, quality: StepQuality) -> RunState<S> {
    let values = if quality == StepQuality::Rejected {
        s.saved
    } else {
        s.values
    };
    let radius = s.radius.adjusted(quality);
    if radius.below_floor() {
        RunState {
            phase: Phase::Finished,
            steps: s.steps + 1,
            radius,
            values,
            outcome: Some(
                SolverResult::MaxIterationsReached {
                    iterations: (s.steps + 1) as usize,
                    final_error: s.last_norm->Some_0,
                    initial_error: s.initial_norm->Some_0,
                },
            ),
            ..s
        }
    } else {
        RunState { phase: Phase::AwaitResidual, steps: s.steps + 1, radius, values, ..s }
    }
}

/// The transition function of a run. An event that the run is not waiting
/// for leaves the state as it is.
pub open spec fn step<S>(s: RunState<S>, event: SolverEvent<S>) -> RunState<S> {
    match event {
        SolverEvent::Residual { norm, converged, stalled } => if s.phase == Phase::AwaitResidual {
            after_residual(s, norm, converged, stalled)
        } else {
            s
        },
        SolverEvent::Candidate(candidate) => if s.phase == Phase::AwaitCandidate {
            after_candidate(s, candidate@)
        } else {
            s
        },
        SolverEvent::Quality(quality) => if s.phase == Phase::AwaitQuality {
            after_quality(s, quality)
        } else {
            s
        },
    }
}

/// What a run in this state asks for.
pub open spec fn action_of<S>(s: RunState<S>) -> SolverAction<S> {
    match s.phase {
        Phase::AwaitResidual => SolverAction::Evaluate,
        Phase::AwaitCandidate => SolverAction::ProposeStep { radius: s.radius },
        Phase::AwaitQuality => SolverAction::JudgeStep,
        Phase::Finished => SolverAction::Finish(s.outcome->Some_0),
    }
}

/// What holds of every state that a run can reach from parameters `origin`:
/// the counters are within their bounds, the radius is within its bounds
/// until the run ends, and no fixed parameter has left its first value.
pub open spec fn state_wf<S>(s: RunState<S>, origin: Seq<S>) -> bool {
    &&& s.values.len() == origin.len()
    &&& s.mask.len() == origin.len()
    &&& s.max_iterations <= usize::MAX
    &&& s.steps <= s.max_iterations
    &&& s.stagnation <= STAGNATION_LIMIT + 1
    &&& s.phase == Phase::Finished <==> s.outcome is Some
    &&& s.phase != Phase::Finished ==> s.radius.wf() && s.stagnation <= STAGNATION_LIMIT
    &&& s.phase == Phase::AwaitCandidate || s.phase == Phase::AwaitQuality ==> {
        &&& s.steps < s.max_iterations
        &&& s.initial_norm is Some
        &&& s.last_norm is Some
    }
    &&& s.phase == Phase::AwaitQuality ==> {
        &&& s.saved.len() == origin.len()
        &&& forall|i: int| 0 <= i < origin.len() && s.mask[i] ==> #[trigger] s.saved[i] == origin[i]
    }
    &&& forall|i: int| 0 <= i < origin.len() && s.mask[i] ==> #[trigger] s.values[i] == origin[i]
}

/// Every transition keeps the invariant of a run.
pub proof fn lemma_step_keeps_wf<S>(s: RunState<S>, origin: Seq<S>, event: SolverEvent<S>)
    requires
        state_wf(s, origin),
    ensures
        state_wf(step(s, event), origin),
        step(s, event).mask == s.mask,
        step(s, event).max_iterations == s.max_iterations,
{
}

/// Fixed invariance: whatever is reported to a run, no fixed parameter
/// ever moves.
pub proof fn lemma_fixed_parameters_stay<S>(s: RunState<S>, origin: Seq<S>, event: SolverEvent<S>, i: int)
    requires
        state_wf(s, origin),
        0 <= i < origin.len(),
        s.mask[i],
    ensures
        step(s, event).values[i] == s.values[i],
        step(s, event).values[i] == origin[i],
{
}

/// A residual norm below the tolerance at the start of a run ends it at
/// once: the result is convergence with that norm, and the parameters are
/// those of the start.
pub proof fn lemma_converged_at_start<S>(s: RunState<S>, norm: S, stalled: bool)
    requires
        s.phase == Phase::AwaitResidual,
        s.initial_norm is None,
    ensures
        ({
            let end = step(s, SolverEvent::Residual { norm, converged: true, stalled });
            &&& end.phase == Phase::Finished
            &&& end.values == s.values
            &&& end.outcome matches Some(SolverResult::Converged { iterations, final_error, initial_error })
            &&& final_error == norm
            &&& initial_error == norm
        }),
{
}

/// The state that a run starts in.
pub open spec fn initial_state<S>(values: Seq<S>, mask: Seq<bool>, max_iterations: nat) -> RunState<S> {
    RunState {
        phase: Phase::AwaitResidual,
        steps: 0,
        max_iterations,
        radius: TrustRadius::initial_radius(),
        stagnation: 0,
        initial_norm: None,
        last_norm: None,
        values,
        saved: Seq::empty(),
        mask,
        outcome: None,
    }
}

/// One solve in progress: the parameter vector, the layout of the system,
/// and the state of the trust-region iteration.
///
/// The run decides; the numerical side computes. The run says what it needs
/// next (`action`), the numerical side computes it from the parameters and
/// the layout and reports it (`advance`), until the run ends.
pub struct DogLegRun<S> {
    params: ParameterManager<S>,
    layout: SystemLayout,
    origin: Ghost<Seq<S>>,
    saved: Vec<S>,
    phase: Phase,
    steps: usize,
    max_iterations: usize,
    radius: TrustRadius,
    stagnation: usize,
    initial_norm: Option<S>,
    last_norm: Option<S>,
    outcome: Option<SolverResult<S>>,
}

impl<S: Copy> DogLegRun<S> {
    /// The state of the run.
    pub closed spec fn state(&self) -> RunState<S> {
        RunState {
            phase: self.phase,
            steps: self.steps as nat,
            max_iterations: self.max_iterations as nat,
            radius: self.radius,
            stagnation: self.stagnation as nat,
            initial_norm: self.initial_norm,
            last_norm: self.last_norm,
            values: self.params.values(),
            saved: self.saved@,
            mask: self.params.mask(),
            outcome: self.outcome,
        }
    }

    /// The parameter vector that the run started from.
    pub closed spec fn origin(&self) -> Seq<S> {
        self.origin@
    }

    /// The parameter manager of the run.
    pub closed spec fn manager(&self) -> ParameterManager<S> {
        self.params
    }

    /// The layout of the run's system.
    pub closed spec fn system(&self) -> SystemLayout {
        self.layout
    }

    /// The run's invariant.
    pub open spec fn wf(&self) -> bool {
        &&& state_wf(self.state(), self.origin())
        &&& self.manager().wf()
        &&& self.system().wf()
        &&& self.system().num_cols() == self.manager().len()
        &&& self.state().values == self.manager().values()
        &&& self.state().mask == self.manager().mask()
    }

    /// Starts a run on registered parameters and a layout over them.
    pub(crate) fn start(params: ParameterManager<S>, layout: SystemLayout, max_iterations: usize) -> (run:
        Self)
        requires
            params.wf(),
            layout.wf(),
            layout.num_cols() == params.len(),
        ensures
            run.wf(),
            run.manager() == params,
            run.system() == layout,
            run.origin() == params.values(),
            run.state() == initial_state(params.values(), params.mask(), max_iterations as nat),
    {
        let ghost origin = params.values();
        DogLegRun {
            params,
            layout,
            origin: Ghost(origin),
            saved: Vec::new(),
            phase: Phase::AwaitResidual,
            steps: 0,
            max_iterations,
            radius: TrustRadius::initial(),
            stagnation: 0,
            initial_norm: None,
            last_norm: None,
            outcome: None,
        }
    }

    /// What the run asks for next.
    pub fn action(&self) -> (action: SolverAction<S>)
        requires
            self.wf(),
        ensures
            action == action_of(self.state()),
    {
        match self.phase {
            Phase::AwaitResidual => SolverAction::Evaluate,
            Phase::AwaitCandidate => SolverAction::ProposeStep { radius: self.radius },
            Phase::AwaitQuality => SolverAction::JudgeStep,
            Phase::Finished => match self.outcome {
                Some(result) => SolverAction::Finish(result),
                None => SolverAction::Evaluate,
            },
        }
    }

    /// Takes a report from the numerical side and says what the run asks
    /// for next. A report that the run is not waiting for changes nothing.
    pub fn advance(&mut self, event: SolverEvent<S>) -> (action: SolverAction<S>)
        requires
            old(self).wf(),
        ensures
            final(self).wf(),
            final(self).state() == step(old(self).state(), event),
            final(self).origin() == old(self).origin(),
            final(self).system() == old(self).system(),
            final(self).manager().records() == old(self).manager().records(),
            final(self).manager().infos() == old(self).manager().infos(),
            action == action_of(final(self).state()),
    {
        proof {
            lemma_step_keeps_wf(self.state(), self.origin(), event);
        }
        match event {
            SolverEvent::Residual { norm, converged, stalled } => {
                if let Phase::AwaitResidual = self.phase {
                    let first = match self.initial_norm {
                        Some(n) => n,
                        None => norm,
                    };
                    let iterations = if self.steps < self.max_iterations {
                        self.steps + 1
                    } else {
                        self.max_iterations
                    };
                    self.initial_norm = Some(first);
                    self.last_norm = Some(norm);
                    if converged {
                        self.phase = Phase::Finished;
                        self.outcome = Some(
                            SolverResult::Converged { iterations, final_error: norm, initial_error: first },
                        );
                    } else if self.steps >= self.max_iterations {
                        self.phase = Phase::Finished;
                        self.outcome = Some(
                            SolverResult::MaxIterationsReached {
                                iterations,
                                final_error: norm,
                                initial_error: first,
                            },
                        );
                    } else if stalled && self.stagnation >= STAGNATION_LIMIT {
                        self.phase = Phase::Finished;
                        self.stagnation = self.stagnation + 1;
                        self.outcome = Some(
                            SolverResult::MaxIterationsReached {
                                iterations,
                                final_error: norm,
                                initial_error: first,
                            },
                        );
                    } else {
                        self.phase = Phase::AwaitCandidate;
                        self.stagnation = if stalled {
                            self.stagnation + 1
                        } else {
                            0
                        };
                    }
                }
            },
            SolverEvent::Candidate(candidate) => {
                if let Phase::AwaitCandidate = self.phase {
                    if candidate.len() == self.params.num_parameters() {
                        self.saved = self.params.snapshot();
                        let _ = self.params.apply_free(candidate.as_slice());
                        self.phase = Phase::AwaitQuality;
                    }
                }
            },
            SolverEvent::Quality(quality) => {
                if let Phase::AwaitQuality = self.phase {
                    if let StepQuality::Rejected = quality {
                        let _ = self.params.restore(self.saved.as_slice());
                    }
                    self.radius = self.radius.adjust(quality);
                    self.steps = self.steps + 1;
                    if self.radius.is_below_floor() {
                        self.phase = Phase::Finished;
                        match (self.last_norm, self.initial_norm) {
                            (Some(final_error), Some(initial_error)) => {
                                self.outcome = Some(
                                    SolverResult::MaxIterationsReached {
                                        iterations: self.steps,
                                        final_error,
                                        initial_error,
                                    },
                                );
                            },
                            _ => {},
                        }
                    } else {
                        self.phase = Phase::AwaitResidual;
                    }
                }
            },
        }
        self.action()
    }

    /// The current parameter vector: tentative while the run waits for the
    /// quality of a step.
    pub fn parameters(&self) -> (params: &[S])
        ensures
            params@ == self.state().values,
    {
        self.params.get_parameters()
    }

    /// The parameter manager of the run.
    pub fn parameter_manager(&self) -> (pm: &ParameterManager<S>)
        ensures
            *pm == self.manager(),
    {
        &self.params
    }

    /// The layout of the run's system.
    pub fn layout(&self) -> (layout: &SystemLayout)
        ensures
            *layout == self.system(),
    {
        &self.layout
    }

    /// The residual norm that was reported last, if any was.
    pub fn previous_norm(&self) -> (norm: Option<S>)
        ensures
            norm == self.state().last_norm,
    {
        self.last_norm
    }

    /// The current trust radius.
    pub fn radius(&self) -> (radius: TrustRadius)
        ensures
            radius == self.state().radius,
    {
        self.radius
    }

    /// The result of the run, once it has ended.
    pub fn result(&self) -> (result: Option<SolverResult<S>>)
        ensures
            result == self.state().outcome,
    {
        self.outcome
    }
}

/// The dog-leg trust-region solver: its settings, and the way into a run.
#[derive(Debug, Clone, Copy)]
pub struct ParametricDogLegSolver {
    max_iterations: usize,
}

impl ParametricDogLegSolver {
    /// The number of iterations after which a run gives up.
    pub closed spec fn iteration_limit(&self) -> nat {
        self.max_iterations as nat
    }

    /// A solver that gives up after 100 iterations.
    pub fn new() -> (solver: Self)
        ensures
            solver.iteration_limit() == 100,
    {
        ParametricDogLegSolver { max_iterations: 100 }
    }

    /// A solver that gives up after the given number of iterations.
    pub fn with_max_iterations(max_iterations: usize) -> (solver: Self)
        ensures
            solver.iteration_limit() == max_iterations,
    {
        ParametricDogLegSolver { max_iterations }
    }

    /// The number of iterations after which a run gives up.
    pub fn max_iterations(&self) -> (n: usize)
        ensures
            n == self.iteration_limit(),
    {
        self.max_iterations
    }

    /// Starts a run on a sketch: registers the points, the circles and the
    /// arcs, in this order, and lays out the system of the constraints.
    ///
    /// Fails with `DuplicateId` when two entities share an id, with
    /// `UnknownReference` when a constraint names a parameter that no
    /// entity has, and with `DimensionMismatch` when the residual rows
    /// cannot be counted.
    pub fn begin<S: Copy>(&self, geometry: &GeometrySystem<S>, graph: &ConstraintGraph<S>) -> (r: Result<
        DogLegRun<S>,
        SolverError,
    >)
        requires
            geometry.wf(),
        ensures
            match r {
                Ok(run) => {
                    &&& run.wf()
                    &&& entity_ids(geometry).no_duplicates()
                    &&& sketch_resolves(geometry, graph.constraints())
                    &&& registered(&run.manager(), geometry)
                    &&& run.origin() == run.manager().values()
                    &&& run.state() == initial_state(
                        run.manager().values(),
                        run.manager().mask(),
                        self.iteration_limit(),
                    )
                    &&& run.system().rows() == row_counts(graph.constraints())
                    &&& run.system().columns() == column_lists(&run.manager(), graph.constraints())
                },
                Err(e) => {
                    &&& e == SolverError::DuplicateId <==> !entity_ids(geometry).no_duplicates()
                    &&& e == SolverError::UnknownReference <==> entity_ids(geometry).no_duplicates()
                        && !sketch_resolves(geometry, graph.constraints())
                    &&& e == SolverError::DimensionMismatch <==> entity_ids(geometry).no_duplicates()
                        && sketch_resolves(geometry, graph.constraints()) && row_sum(
                        row_counts(graph.constraints()),
                        graph.constraints().len() as int,
                    ) > usize::MAX
                    &&& e == SolverError::DuplicateId || e == SolverError::UnknownReference || e
                        == SolverError::DimensionMismatch
                },
            },
    {
        let ghost points = geometry.points().keys();
        let ghost circles = geometry.circles().keys();
        let ghost arcs = geometry.arcs().keys();
        let mut pm: ParameterManager<S> = ParameterManager::new();
        proof {
            assert(pm.ids() =~= Seq::<Seq<char>>::empty());
            assert(pm.ids() + points =~= points);
        }
        if register_all(&mut pm, geometry.get_all_points(), EntityType::Point).is_err() {
            return Err(SolverError::DuplicateId);
        }
        let ghost pm1 = pm;
        if register_all(&mut pm, geometry.get_all_circles(), EntityType::Circle).is_err() {
            proof {
                lemma_prefix_duplicates(points + circles, arcs);
            }
            return Err(SolverError::DuplicateId);
        }
        let ghost pm2 = pm;
        if register_all(&mut pm, geometry.get_all_arcs(), EntityType::Arc).is_err() {
            return Err(SolverError::DuplicateId);
        }
        proof {
            let np = points.len() as int;
            let nc = circles.len() as int;
            assert(pm1.records().len() == np);
            assert(pm2.records().len() == np + nc);
            assert forall|i: int| 0 <= i < np implies mirrors(
                &pm,
                #[trigger] pm.records()[i],
                geometry.points().keys()[i],
                EntityType::Point,
                geometry.points().values()[i],
            ) by {
                assert(mirrors(
                    &pm1,
                    pm1.records()[0 + i],
                    geometry.points().keys()[i],
                    EntityType::Point,
                    geometry.points().values()[i],
                ));
                lemma_mirrors_extends(
                    &pm2,
                    &pm1,
                    pm1.records()[i],
                    geometry.points().keys()[i],
                    EntityType::Point,
                    geometry.points().values()[i],
                );
                lemma_mirrors_extends(
                    &pm,
                    &pm2,
                    pm1.records()[i],
                    geometry.points().keys()[i],
                    EntityType::Point,
                    geometry.points().values()[i],
                );
                assert(pm2.records().subrange(0, np)[i] == pm1.records()[i]);
                assert(pm.records().subrange(0, np + nc)[i] == pm2.records()[i]);
            }
            assert forall|i: int| 0 <= i < nc implies mirrors(
                &pm,
                #[trigger] pm.records()[np + i],
                geometry.circles().keys()[i],
                EntityType::Circle,
                geometry.circles().values()[i],
            ) by {
                lemma_mirrors_extends(
                    &pm,
                    &pm2,
                    pm2.records()[np + i],
                    geometry.circles().keys()[i],
                    EntityType::Circle,
                    geometry.circles().values()[i],
                );
                assert(pm.records().subrange(0, np + nc)[np + i] == pm2.records()[np + i]);
            }
            assert(registered(&pm, geometry));
            lemma_registered_resolves_all(&pm, geometry, graph.constraints());
        }
        let layout = match SystemLayout::build(graph.get_constraints(), &pm) {
            Ok(layout) => layout,
            Err(e) => {
                return Err(e);
            },
        };
        Ok(DogLegRun::start(pm, layout, self.max_iterations))
    }
}

impl Default for ParametricDogLegSolver {
    /// A solver that gives up after 100 iterations.
    fn default() -> (solver: Self)
        ensures
            solver.iteration_limit() == 100,
    {
        Self::new()
    }
}

impl<S: Copy> DogLegRun<S> {
    /// Ends a run: hands the points, the circles and the arcs of the sketch
    /// their parameters back, in this order, and returns the result.
    ///
    /// Fails with `InvalidOperation`, touching nothing, while the run has
    /// not ended. Fails with the manager's error at the first entity that
    /// the manager cannot serve; the entities before it hold their new
    /// values by then.
    pub fn finish(self, geometry: &mut GeometrySystem<S>) -> (r: Result<SolverResult<S>, SolverError>)
        requires
            self.wf(),
            old(geometry).wf(),
        ensures
            final(geometry).wf(),
            final(geometry).lines() == old(geometry).lines(),
            final(geometry).points().keys() == old(geometry).points().keys(),
            final(geometry).circles().keys() == old(geometry).circles().keys(),
            final(geometry).arcs().keys() == old(geometry).arcs().keys(),
            self.state().phase != Phase::Finished ==> r == Err::<SolverResult<S>, SolverError>(
                SolverError::InvalidOperation,
            ) && *final(geometry) == *old(geometry),
            self.state().phase == Phase::Finished ==> {
                let pm = &self.manager();
                match r {
                    Ok(result) => {
                        &&& Some(result) == self.state().outcome
                        &&& sync_outcome(pm, old(geometry).points(), final(geometry).points(), None)
                        &&& sync_outcome(pm, old(geometry).circles(), final(geometry).circles(), None)
                        &&& sync_outcome(pm, old(geometry).arcs(), final(geometry).arcs(), None)
                    },
                    Err(e) => {
                        ||| {
                            &&& sync_outcome(pm, old(geometry).points(), final(geometry).points(), Some(e))
                            &&& final(geometry).circles() == old(geometry).circles()
                            &&& final(geometry).arcs() == old(geometry).arcs()
                        }
                        ||| {
                            &&& sync_outcome(pm, old(geometry).points(), final(geometry).points(), None)
                            &&& sync_outcome(pm, old(geometry).circles(), final(geometry).circles(), Some(e))
                            &&& final(geometry).arcs() == old(geometry).arcs()
                        }
                        ||| {
                            &&& sync_outcome(pm, old(geometry).points(), final(geometry).points(), None)
                            &&& sync_outcome(pm, old(geometry).circles(), final(geometry).circles(), None)
                            &&& sync_outcome(pm, old(geometry).arcs(), final(geometry).arcs(), Some(e))
                        }
                    },
                }
            },
    {
        let result = match self.outcome {
            Some(result) => result,
            None => {
                return Err(SolverError::InvalidOperation);
            },
        };
        let mut pm = self.params;
        match sync_all(&mut pm, geometry.get_all_points_mut()) {
            Ok(()) => {},
            Err(e) => {
                return Err(e);
            },
        }
        match sync_all(&mut pm, geometry.get_all_circles_mut()) {
            Ok(()) => {},
            Err(e) => {
                return Err(e);
            },
        }
        match sync_all(&mut pm, geometry.get_all_arcs_mut()) {
            Ok(()) => {},
            Err(e) => {
                return Err(e);
            },
        }
        Ok(result)
    }

    /// Fixed invariance, for an entity: where all parameters of an entity
    /// are fixed, the run still holds the values that the entity had at the
    /// start, so handing them back leaves the entity as it was.
    pub proof fn lemma_fixed_entity_unchanged<T: ParametricEntity<S>>(&self, key: Seq<char>, entity: T)
        requires
            self.wf(),
            self.manager().has_entity(key),
            entity.parameters().len() == self.manager().record_of(key).count,
            ({
                let rec = self.manager().record_of(key);
                &&& self.origin().subrange(rec.start, rec.start + rec.count) == entity.parameters()
                &&& forall|k: int| 0 <= k < rec.count ==> #[trigger] self.manager().mask()[rec.start + k]
            }),
        ensures
            synced(&self.manager(), key, entity) == entity,
    {
        let pm = self.manager();
        let rec = pm.record_of(key);
        let j = pm.ids().index_of(key);
        assert(pm.records()[j].start + pm.records()[j].count <= pm.len());
        assert(0 <= pm.records()[j].start);
        assert(pm.values().subrange(rec.start, rec.start + rec.count) =~= entity.parameters()) by {
            assert forall|k: int| 0 <= k < rec.count implies pm.values().subrange(
                rec.start,
                rec.start + rec.count,
            )[k] == entity.parameters()[k] by {
                assert(self.state().mask[rec.start + k]);
                assert(self.state().values[rec.start + k] == self.origin()[rec.start + k]);
                assert(self.origin().subrange(rec.start, rec.start + rec.count)[k] == self.origin()[rec.start
                    + k]);
            }
        }
        entity.lemma_with_own_parameters();
    }

    /// Fixed invariance, for a solve: an entity of which every parameter is
    /// fixed is the same after a solve as before. `begun` is the manager as
    /// `begin` made it; the run has kept its records since, and `finish` has
    /// handed the entities of a map their parameters back.
    pub proof fn lemma_fixed_entity_survives<T: ParametricEntity<S>>(
        &self,
        begun: &ParameterManager<S>,
        before: EntityMap<T>,
        after: EntityMap<T>,
        rec: int,
        kind: EntityType,
        i: int,
    )
        requires
            self.wf(),
            begun.wf(),
            self.manager().records() == begun.records(),
            self.manager().infos() == begun.infos(),
            self.origin() == begun.values(),
            0 <= i < before.keys().len(),
            0 <= rec < begun.records().len(),
            mirrors(begun, begun.records()[rec], before.keys()[i], kind, before.values()[i]),
            forall|k: int| 0 <= k < before.values()[i].parameters().len() ==> before.values()[i].fixed_at(k),
            sync_outcome(&self.manager(), before, after, None),
        ensures
            after.values()[i] == before.values()[i],
    {
        reveal(sync_outcome);
        let key = before.keys()[i];
        let entity = before.values()[i];
        let record = begun.records()[rec];
        assert(begun.ids()[rec] == record.id);
        crate::parameter_system::lemma_unique_position(begun.ids(), rec);
        assert(self.manager().ids() =~= begun.ids());
        assert(self.manager().record_of(key) == record);
        assert(served(&self.manager(), before, after, i));
        assert forall|k: int| 0 <= k < record.count implies #[trigger] self.manager().mask()[record.start + k] by {
            assert(begun.mask()[record.start + k] == entity.fixed_at(k));
            assert(self.manager().mask() =~= begun.mask());
        }
        self.lemma_fixed_entity_unchanged(key, entity);
    }
}

} // verus!
