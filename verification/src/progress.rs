//! The bookkeeping of a run: its status, its sizes and its counters of
//! iterations and function evaluations, and how one iteration of each
//! algorithm advances them.

use vstd::prelude::*;

use crate::algorithm_structure::AlgorithmStatus;

verus! {

impl AlgorithmStatus {
    pub open spec fn spec_is_initialized(&self) -> bool {
        self is Initialized
    }

    pub open spec fn spec_is_running(&self) -> bool {
        self is Running
    }

    pub open spec fn spec_is_done(&self) -> bool {
        self is Completed
    }
}

/// The status a run takes at the end of an iteration: completed once the
/// iteration count reaches the budget, running otherwise.
pub open spec fn status_after(
    current_iteration: nat,
    total_iterations: nat,
    function_evaluations: nat,
) -> AlgorithmStatus {
    if current_iteration >= total_iterations {
        AlgorithmStatus::Completed
    } else {
        AlgorithmStatus::Running {
            Iterations: current_iteration as usize,
            FunctionEvaluations: function_evaluations as usize,
        }
    }
}

/// What a run's bookkeeping holds, as mathematical values.
pub struct ProgressModel {
    pub status: AlgorithmStatus,
    pub population_size: nat,
    pub dimensions: nat,
    pub total_iterations: nat,
    pub current_iteration: nat,
    pub function_evaluations: nat,
    pub total_function_evaluations: nat,
}

impl ProgressModel {
    /// The bookkeeping after the population is (re)built with `np` members of
    /// `dim` coordinates: the counters are kept.
    pub open spec fn initialized(self, np: nat, dim: nat) -> ProgressModel {
        ProgressModel {
            status: AlgorithmStatus::Initialized { Population: np as usize, Dimensions: dim as usize },
            population_size: np,
            dimensions: dim,
            ..self
        }
    }

    /// The bookkeeping after one particle swarm iteration: every particle has
    /// been evaluated once per iteration so far.
    pub open spec fn after_pso_iteration(self) -> ProgressModel {
        let cur = self.current_iteration + 1;
        let fe = self.population_size * cur;
        ProgressModel {
            status: status_after(cur, self.total_iterations, fe),
            current_iteration: cur,
            function_evaluations: fe,
            ..self
        }
    }

    /// The evaluations one social group iteration counts: one sweep over the
    /// population per phase, and one more sweep before the first iteration.
    pub open spec fn sgo_iteration_evaluations(self) -> nat {
        if self.current_iteration == 0 {
            3 * self.population_size
        } else {
            2 * self.population_size
        }
    }

    /// The bookkeeping after one social group iteration.
    pub open spec fn after_sgo_iteration(self) -> ProgressModel {
        let cur = self.current_iteration + 1;
        let fe = self.function_evaluations + self.sgo_iteration_evaluations();
        ProgressModel {
            status: status_after(cur, self.total_iterations, fe),
            current_iteration: cur,
            function_evaluations: fe,
            ..self
        }
    }

    /// The counters of a particle swarm iteration fit in machine integers.
    pub open spec fn pso_iteration_fits(self) -> bool {
        self.population_size * (self.current_iteration + 1) <= usize::MAX
            && self.current_iteration + 1 <= usize::MAX
    }

    /// The counters of a social group iteration fit in machine integers.
    pub open spec fn sgo_iteration_fits(self) -> bool {
        self.function_evaluations + self.sgo_iteration_evaluations() <= usize::MAX
            && self.current_iteration + 1 <= usize::MAX
    }
}

/// `k` particle swarm iterations in a row.
pub open spec fn pso_iterations(m: ProgressModel, k: nat) -> ProgressModel
    decreases k,
{
    if k == 0 {
        m
    } else {
        pso_iterations(m, (k - 1) as nat).after_pso_iteration()
    }
}

/// `k` social group iterations in a row.
pub open spec fn sgo_iterations(m: ProgressModel, k: nat) -> ProgressModel
    decreases k,
{
    if k == 0 {
        m
    } else {
        sgo_iterations(m, (k - 1) as nat).after_sgo_iteration()
    }
}

/// The bookkeeping of one optimisation run.
#[derive(Debug)]
pub struct RunProgress {
    status: AlgorithmStatus,
    population_size: usize,
    dimensions: usize,
    total_iterations: usize,
    current_iteration: usize,
    function_evaluations: usize,
    total_function_evaluations: usize,
}

impl View for RunProgress {
    type V = ProgressModel;

    closed spec fn view(&self) -> ProgressModel {
        ProgressModel {
            status: self.status,
            population_size: self.population_size as nat,
            dimensions: self.dimensions as nat,
            total_iterations: self.total_iterations as nat,
            current_iteration: self.current_iteration as nat,
            function_evaluations: self.function_evaluations as nat,
            total_function_evaluations: self.total_function_evaluations as nat,
        }
    }
}

impl RunProgress {
    /// A run that has not been initialised, with no iteration done and no
    /// evaluation spent.
    pub fn new(
        population_size: usize,
        dimensions: usize,
        total_iterations: usize,
        total_function_evaluations: usize,
    ) -> (p: Self)
        ensures
            p@ == (ProgressModel {
                status: AlgorithmStatus::Not_Initialized,
                population_size: population_size as nat,
                dimensions: dimensions as nat,
                total_iterations: total_iterations as nat,
                current_iteration: 0,
                function_evaluations: 0,
                total_function_evaluations: total_function_evaluations as nat,
            }),
    {
        RunProgress {
            status: AlgorithmStatus::Not_Initialized,
            population_size,
            dimensions,
            total_iterations,
            current_iteration: 0,
            function_evaluations: 0,
            total_function_evaluations,
        }
    }

    /// Records that the population was built with `np` members of `dim`
    /// coordinates.
    pub fn initialize(&mut self, np: usize, dim: usize)
        ensures
            final(self)@ == old(self)@.initialized(np as nat, dim as nat),
            final(self)@.status == (AlgorithmStatus::Initialized { Population: np, Dimensions: dim }),
            final(self)@.population_size == np,
            final(self)@.dimensions == dim,
            final(self)@.total_iterations == old(self)@.total_iterations,
            final(self)@.current_iteration == old(self)@.current_iteration,
            final(self)@.function_evaluations == old(self)@.function_evaluations,
            final(self)@.total_function_evaluations == old(self)@.total_function_evaluations,
    {
        self.population_size = np;
        self.dimensions = dim;
        self.status = AlgorithmStatus::Initialized { Population: np, Dimensions: dim };
    }

    pub fn is_initalized(&self) -> (b: bool)
        ensures
            b == self@.status.spec_is_initialized(),
    {
        match self.status {
            AlgorithmStatus::Initialized { .. } => true,
            _ => false,
        }
    }

    pub fn is_running(&self) -> (b: bool)
        ensures
            b == self@.status.spec_is_running(),
    {
        match self.status {
            AlgorithmStatus::Running { .. } => true,
            _ => false,
        }
    }

    pub fn is_done(&self) -> (b: bool)
        ensures
            b == self@.status.spec_is_done(),
    {
        match self.status {
            AlgorithmStatus::Completed => true,
            _ => false,
        }
    }

    pub fn status(&self) -> (s: &AlgorithmStatus)
        ensures
            *s == self@.status,
    {
        &self.status
    }

    pub fn population_size(&self) -> (n: usize)
        ensures
            n == self@.population_size,
    {
        self.population_size
    }

    pub fn dimensions(&self) -> (n: usize)
        ensures
            n == self@.dimensions,
    {
        self.dimensions
    }

    pub fn total_iterations(&self) -> (n: usize)
        ensures
            n == self@.total_iterations,
    {
        self.total_iterations
    }

    pub fn current_iteration(&self) -> (n: usize)
        ensures
            n == self@.current_iteration,
    {
        self.current_iteration
    }

    pub fn function_evaluations(&self) -> (n: usize)
        ensures
            n == self@.function_evaluations,
    {
        self.function_evaluations
    }

    pub fn total_function_evaluations(&self) -> (n: usize)
        ensures
            n == self@.total_function_evaluations,
    {
        self.total_function_evaluations
    }

    /// Whether the counters of one more particle swarm iteration fit.
    pub fn pso_iteration_fits(&self) -> (b: bool)
        ensures
            b == self@.pso_iteration_fits(),
    {
        if self.current_iteration == usize::MAX {
            false
        } else {
            match self.population_size.checked_mul(self.current_iteration + 1) {
                Some(_) => true,
                None => false,
            }
        }
    }

    /// Whether the counters of one more social group iteration fit.
    pub fn sgo_iteration_fits(&self) -> (b: bool)
        ensures
            b == self@.sgo_iteration_fits(),
    {
        if self.current_iteration == usize::MAX {
            false
        } else {
            let sweeps: usize = if self.current_iteration == 0 { 3 } else { 2 };
            match self.population_size.checked_mul(sweeps) {
                Some(n) => match self.function_evaluations.checked_add(n) {
                    Some(_) => true,
                    None => false,
                },
                None => false,
            }
        }
    }

    /// Closes a particle swarm iteration.
    pub fn complete_pso_iteration(&mut self)
        requires
            old(self)@.pso_iteration_fits(),
        ensures
            final(self)@ == old(self)@.after_pso_iteration(),
    {
        self.current_iteration = self.current_iteration + 1;
        self.function_evaluations = self.population_size * self.current_iteration;
        self.finish_iteration();
    }

    /// Closes a social group iteration.
    pub fn complete_sgo_iteration(&mut self)
        requires
            old(self)@.sgo_iteration_fits(),
        ensures
            final(self)@ == old(self)@.after_sgo_iteration(),
    {
        if self.current_iteration == 0 {
            self.function_evaluations = self.function_evaluations + self.population_size;
        }
        self.function_evaluations = self.function_evaluations + self.population_size;
        self.function_evaluations = self.function_evaluations + self.population_size;
        self.current_iteration = self.current_iteration + 1;
        self.finish_iteration();
    }

    fn finish_iteration(&mut self)
        ensures
            final(self)@ == (ProgressModel {
                status: status_after(
                    old(self)@.current_iteration,
                    old(self)@.total_iterations,
                    old(self)@.function_evaluations,
                ),
                ..old(self)@
            }),
    {
        if self.current_iteration >= self.total_iterations {
            self.status = AlgorithmStatus::Completed;
        } else {
            self.status = AlgorithmStatus::Running {
                Iterations: self.current_iteration,
                FunctionEvaluations: self.function_evaluations,
            };
        }
    }
}

/// How many iterations a run performs from iteration `current` before it
/// completes, with a budget of `total` iterations: at least one.
pub open spec fn iterations_to_completion(current: nat, total: nat) -> nat {
    if current < total {
        (total - current) as nat
    } else {
        1
    }
}

/// A run is in at most one of the states initialised, running and completed.
pub proof fn lemma_status_exclusive(s: AlgorithmStatus)
    ensures
        !(s.spec_is_initialized() && s.spec_is_running()),
        !(s.spec_is_initialized() && s.spec_is_done()),
        !(s.spec_is_running() && s.spec_is_done()),
{
}

/// After `k >= 1` particle swarm iterations the iteration counter has grown
/// by `k`, every particle has been evaluated once per iteration, the sizes
/// and budgets are unchanged, and the run is completed exactly when the
/// iteration counter has reached the budget, and running otherwise.
pub proof fn lemma_pso_iterations(m: ProgressModel, k: nat)
    requires
        k >= 1,
    ensures
        pso_iterations(m, k).current_iteration == m.current_iteration + k,
        pso_iterations(m, k).function_evaluations == m.population_size * (m.current_iteration + k),
        pso_iterations(m, k).population_size == m.population_size,
        pso_iterations(m, k).dimensions == m.dimensions,
        pso_iterations(m, k).total_iterations == m.total_iterations,
        pso_iterations(m, k).total_function_evaluations == m.total_function_evaluations,
        pso_iterations(m, k).status.spec_is_done() <==> m.current_iteration + k >= m.total_iterations,
        pso_iterations(m, k).status.spec_is_running() <==> m.current_iteration + k < m.total_iterations,
    decreases k,
{
    assert(pso_iterations(m, 0) == m);
    if k > 1 {
        lemma_pso_iterations(m, (k - 1) as nat);
    }
}

/// After `k >= 1` social group iterations the iteration counter has grown by
/// `k`, the sizes and budgets are unchanged, and the run is completed exactly
/// when the iteration counter has reached the budget, and running otherwise.
pub proof fn lemma_sgo_iterations(m: ProgressModel, k: nat)
    requires
        k >= 1,
    ensures
        sgo_iterations(m, k).current_iteration == m.current_iteration + k,
        sgo_iterations(m, k).population_size == m.population_size,
        sgo_iterations(m, k).dimensions == m.dimensions,
        sgo_iterations(m, k).total_iterations == m.total_iterations,
        sgo_iterations(m, k).total_function_evaluations == m.total_function_evaluations,
        sgo_iterations(m, k).status.spec_is_done() <==> m.current_iteration + k >= m.total_iterations,
        sgo_iterations(m, k).status.spec_is_running() <==> m.current_iteration + k < m.total_iterations,
    decreases k,
{
    assert(sgo_iterations(m, 0) == m);
    if k > 1 {
        lemma_sgo_iterations(m, (k - 1) as nat);
    }
}

/// A social group run started from no iteration and no evaluation has
/// counted `np * (2k + 1)` evaluations after `k >= 1` iterations: one sweep
/// over the population before the first iteration and two per iteration.
pub proof fn lemma_sgo_evaluation_count(m: ProgressModel, k: nat)
    requires
        m.current_iteration == 0,
        m.function_evaluations == 0,
        k >= 1,
    ensures
        sgo_iterations(m, k).function_evaluations == m.population_size * (2 * k + 1),
    decreases k,
{
    let np = m.population_size;
    assert(sgo_iterations(m, 0) == m);
    if k == 1 {
        assert(np * (2 * 1 + 1) == 3 * np) by (nonlinear_arith);
    } else {
        lemma_sgo_evaluation_count(m, (k - 1) as nat);
        lemma_sgo_iterations(m, (k - 1) as nat);
        assert(np * (2 * (k - 1) + 1) + 2 * np == np * (2 * k + 1)) by (nonlinear_arith);
    }
}

/// A run that iterates until it is completed performs exactly
/// `iterations_to_completion` iterations: it is completed after that many
/// and not before. This holds of both algorithms.
pub proof fn lemma_run_length(m: ProgressModel)
    ensures
        ({
            let n = iterations_to_completion(m.current_iteration, m.total_iterations);
            &&& n >= 1
            &&& pso_iterations(m, n).status.spec_is_done()
            &&& sgo_iterations(m, n).status.spec_is_done()
            &&& forall|k: nat|
                1 <= k < n ==> !(#[trigger] pso_iterations(m, k)).status.spec_is_done()
            &&& forall|k: nat|
                1 <= k < n ==> !(#[trigger] sgo_iterations(m, k)).status.spec_is_done()
        }),
{
    let n = iterations_to_completion(m.current_iteration, m.total_iterations);
    lemma_pso_iterations(m, n);
    lemma_sgo_iterations(m, n);
    assert forall|k: nat| 1 <= k < n implies !(#[trigger] pso_iterations(m, k)).status.spec_is_done() by {
        lemma_pso_iterations(m, k);
    }
    assert forall|k: nat| 1 <= k < n implies !(#[trigger] sgo_iterations(m, k)).status.spec_is_done() by {
        lemma_sgo_iterations(m, k);
    }
}

/// One iteration of either algorithm moves the iteration counter on by one,
/// keeps the shape and budgets, and reports the new counters: the run is
/// completed once the counter reaches the budget, and otherwise running at
/// that iteration with the evaluations counted so far. A particle swarm
/// iteration has then counted one evaluation per particle and iteration; a
/// social group iteration adds two sweeps over the population, and three on
/// the first iteration.
pub proof fn lemma_one_iteration(m: ProgressModel)
    requires
        m.population_size * (m.current_iteration + 1) <= usize::MAX,
        m.function_evaluations + 3 * m.population_size <= usize::MAX,
        m.current_iteration + 1 <= usize::MAX,
    ensures
        ({
            let p = m.after_pso_iteration();
            let s = m.after_sgo_iteration();
            let cur = m.current_iteration + 1;
            &&& p.current_iteration == cur
            &&& s.current_iteration == cur
            &&& p.function_evaluations == m.population_size * cur
            &&& m.current_iteration == 0 ==> s.function_evaluations == m.function_evaluations + 3
                * m.population_size
            &&& m.current_iteration > 0 ==> s.function_evaluations == m.function_evaluations + 2
                * m.population_size
            &&& p.population_size == m.population_size && s.population_size == m.population_size
            &&& p.dimensions == m.dimensions && s.dimensions == m.dimensions
            &&& p.total_iterations == m.total_iterations && s.total_iterations == m.total_iterations
            &&& p.total_function_evaluations == m.total_function_evaluations
            &&& s.total_function_evaluations == m.total_function_evaluations
            &&& cur >= m.total_iterations ==> p.status == AlgorithmStatus::Completed
                && s.status == AlgorithmStatus::Completed
            &&& cur < m.total_iterations ==> p.status == (AlgorithmStatus::Running {
                Iterations: cur as usize,
                FunctionEvaluations: (m.population_size * cur) as usize,
            })
            &&& cur < m.total_iterations ==> s.status == (AlgorithmStatus::Running {
                Iterations: cur as usize,
                FunctionEvaluations: s.function_evaluations as usize,
            })
        }),
{
}

/// Initialising puts a run in the initialised state with the given shape,
/// whatever state it was in (not initialised, initialised, running or
/// completed), keeps its counters and budgets, and leaves it not running and
/// not completed; from there a run does at least one more iteration before
/// it completes again.
pub proof fn lemma_initialize_from_any_state(m: ProgressModel, np: nat, dim: nat)
    requires
        np <= usize::MAX,
        dim <= usize::MAX,
    ensures
        m.initialized(np, dim).status == (AlgorithmStatus::Initialized {
            Population: np as usize,
            Dimensions: dim as usize,
        }),
        m.initialized(np, dim).status.spec_is_initialized(),
        !m.initialized(np, dim).status.spec_is_running(),
        !m.initialized(np, dim).status.spec_is_done(),
        m.initialized(np, dim).population_size == np,
        m.initialized(np, dim).dimensions == dim,
        m.initialized(np, dim).total_iterations == m.total_iterations,
        m.initialized(np, dim).current_iteration == m.current_iteration,
        m.initialized(np, dim).function_evaluations == m.function_evaluations,
        m.initialized(np, dim).total_function_evaluations == m.total_function_evaluations,
        iterations_to_completion(
            m.initialized(np, dim).current_iteration,
            m.initialized(np, dim).total_iterations,
        ) >= 1,
{
}

/// An iteration always leaves the run running or completed, never in the
/// initialised state, whatever state it started from.
pub proof fn lemma_iteration_leaves_initialized_state(m: ProgressModel)
    ensures
        !m.after_pso_iteration().status.spec_is_initialized(),
        !m.after_sgo_iteration().status.spec_is_initialized(),
        m.after_pso_iteration().status.spec_is_running() || m.after_pso_iteration().status.spec_is_done(),
        m.after_sgo_iteration().status.spec_is_running() || m.after_sgo_iteration().status.spec_is_done(),
{
}

} // verus!
