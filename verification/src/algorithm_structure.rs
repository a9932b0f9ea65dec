//! The parts of an optimiser that every algorithm shares: its tuning
//! parameters, its name, its status and the bounding strategy it applies.

use std::fmt::Debug;
use vstd::prelude::*;

verus! {

/// Population size, iteration budget and evaluation budget of a run.
#[derive(Debug)]
pub struct BasicTuningParameters {
    Np: usize,
    Ite: usize,
    NFEs: usize,
}

impl BasicTuningParameters {
    /// The population size.
    pub closed spec fn spec_population_size(&self) -> usize {
        self.Np
    }

    /// The number of iterations of a run.
    pub closed spec fn spec_iterations(&self) -> usize {
        self.Ite
    }

    /// The number of function evaluations a run may spend.
    pub closed spec fn spec_function_evaluations(&self) -> usize {
        self.NFEs
    }

    pub fn new(Np: usize, Ite: usize, NFEs: usize) -> (params: Self)
        ensures
            params.spec_population_size() == Np,
            params.spec_iterations() == Ite,
            params.spec_function_evaluations() == NFEs,
    {
        Self { Np, Ite, NFEs }
    }

    pub fn get_total_iterations(&self) -> (ite: usize)
        ensures
            ite == self.spec_iterations(),
    {
        self.Ite
    }
}

impl Default for BasicTuningParameters {
    fn default() -> (params: Self)
        ensures
            params.spec_population_size() == crate::DEFAULT_POPULATION_SIZE,
            params.spec_iterations() == crate::DEFAULT_ITERATIONS,
            params.spec_function_evaluations() == crate::DEFAULT_POPULATION_SIZE
                * crate::DEFAULT_ITERATIONS,
    {
        Self {
            Np: crate::DEFAULT_POPULATION_SIZE,
            Ite: crate::DEFAULT_ITERATIONS,
            NFEs: crate::DEFAULT_POPULATION_SIZE * crate::DEFAULT_ITERATIONS,
        }
    }
}

/// The name a user gives to an algorithm instance.
#[derive(Debug)]
pub struct CustomName<T> {
    Algorithm_CustomName: T,
}

impl<T> CustomName<T> {
    /// The name held.
    pub closed spec fn spec_name(&self) -> T {
        self.Algorithm_CustomName
    }
}

impl<T: Debug> CustomName<T> {
    pub fn new(Algorithm_CustomName: T) -> (name: Self)
        ensures
            name.spec_name() == Algorithm_CustomName,
    {
        Self { Algorithm_CustomName }
    }
}

impl Default for CustomName<String> {
    fn default() -> (name: Self)
        ensures
            name.spec_name()@ == "No Name"@,
    {
        CustomName { Algorithm_CustomName: "No Name".to_owned() }
    }
}

/// Where a run stands.
#[derive(Debug, PartialEq, Eq, Structural)]
pub enum AlgorithmStatus {
    Not_Initialized,
    Initialized { Population: usize, Dimensions: usize },
    Running { Iterations: usize, FunctionEvaluations: usize },
    Completed,
}

/// What to do with a coordinate that left its search range.
#[derive(Debug)]
pub enum BoundingStrategy {
    Clamping,
    Reflecting,
    Wrapping,
    Penalization,
    ReInitialization,
}

/// The bounding operation that an algorithm applies after moving its members.
#[derive(Debug, PartialEq, Eq, Structural, Clone, Copy)]
pub enum BoundingAction {
    /// Put the coordinate on the bound it crossed.
    Clamp,
    /// Mirror the overshoot back into the range, damped by half.
    Reflect,
    /// Carry the overshoot over to the opposite bound, undamped.
    Wrap,
    /// Draw the coordinate afresh inside the range.
    ReInitialize,
}

impl BoundingStrategy {
    /// The operation a strategy stands for; penalization has no operation of
    /// its own and falls back to clamping.
    pub open spec fn spec_action(&self) -> BoundingAction {
        match self {
            BoundingStrategy::Clamping => BoundingAction::Clamp,
            BoundingStrategy::Reflecting => BoundingAction::Reflect,
            BoundingStrategy::Wrapping => BoundingAction::Wrap,
            BoundingStrategy::ReInitialization => BoundingAction::ReInitialize,
            BoundingStrategy::Penalization => BoundingAction::Clamp,
        }
    }

    pub fn action(&self) -> (action: BoundingAction)
        ensures
            action == self.spec_action(),
    {
        match self {
            BoundingStrategy::Clamping => BoundingAction::Clamp,
            BoundingStrategy::Reflecting => BoundingAction::Reflect,
            BoundingStrategy::Wrapping => BoundingAction::Wrap,
            BoundingStrategy::ReInitialization => BoundingAction::ReInitialize,
            _ => BoundingAction::Clamp,
        }
    }
}

} // verus!
