use metaheuristics::algorithm_structure::AlgorithmStatus;
use metaheuristics::progress::RunProgress;

fn exclusive(p: &RunProgress) -> bool {
    let flags = [p.is_initalized(), p.is_running(), p.is_done()];
    flags.iter().filter(|b| **b).count() <= 1
}

#[test]
fn a_new_run_is_not_initialized() {
    let p = RunProgress::new(10, 5, 3, 30);
    assert_eq!(*p.status(), AlgorithmStatus::Not_Initialized);
    assert!(!p.is_initalized() && !p.is_running() && !p.is_done());
    assert_eq!(p.population_size(), 10);
    assert_eq!(p.dimensions(), 5);
    assert_eq!(p.total_iterations(), 3);
    assert_eq!(p.total_function_evaluations(), 30);
    assert_eq!(p.current_iteration(), 0);
    assert_eq!(p.function_evaluations(), 0);
}

#[test]
fn initialize_records_the_shape() {
    let mut p = RunProgress::new(10, 5, 3, 30);
    p.initialize(12, 7);
    assert_eq!(*p.status(), AlgorithmStatus::Initialized { Population: 12, Dimensions: 7 });
    assert!(p.is_initalized());
    assert_eq!(p.population_size(), 12);
    assert_eq!(p.dimensions(), 7);
    assert!(exclusive(&p));
}

#[test]
fn particle_swarm_run_counts_one_evaluation_per_particle_and_iteration() {
    let mut p = RunProgress::new(10, 5, 3, 30);
    p.initialize(10, 5);
    p.complete_pso_iteration();
    assert_eq!(*p.status(), AlgorithmStatus::Running { Iterations: 1, FunctionEvaluations: 10 });
    assert!(p.is_running() && exclusive(&p));
    p.complete_pso_iteration();
    assert_eq!(*p.status(), AlgorithmStatus::Running { Iterations: 2, FunctionEvaluations: 20 });
    p.complete_pso_iteration();
    assert_eq!(*p.status(), AlgorithmStatus::Completed);
    assert!(p.is_done() && exclusive(&p));
    assert_eq!(p.current_iteration(), 3);
    assert_eq!(p.function_evaluations(), 30);
}

#[test]
fn social_group_run_counts_two_sweeps_per_iteration_and_one_before() {
    let mut p = RunProgress::new(4, 2, 3, 100);
    p.initialize(4, 2);
    p.complete_sgo_iteration();
    assert_eq!(*p.status(), AlgorithmStatus::Running { Iterations: 1, FunctionEvaluations: 12 });
    p.complete_sgo_iteration();
    assert_eq!(*p.status(), AlgorithmStatus::Running { Iterations: 2, FunctionEvaluations: 20 });
    p.complete_sgo_iteration();
    assert_eq!(*p.status(), AlgorithmStatus::Completed);
    // 4 * (2 * 3 + 1)
    assert_eq!(p.function_evaluations(), 28);
}

#[test]
fn a_run_with_no_iteration_budget_completes_after_one_iteration() {
    let mut p = RunProgress::new(6, 2, 0, 0);
    p.initialize(6, 2);
    p.complete_pso_iteration();
    assert!(p.is_done());
    assert_eq!(p.current_iteration(), 1);
    assert_eq!(p.function_evaluations(), 6);
}

#[test]
fn run_length_is_the_remaining_budget() {
    for total in 0..6usize {
        let mut p = RunProgress::new(3, 2, total, 0);
        p.initialize(3, 2);
        let mut steps = 0;
        while !p.is_done() {
            p.complete_sgo_iteration();
            steps += 1;
        }
        assert_eq!(steps, if total == 0 { 1 } else { total });
    }
}

#[test]
fn reinitializing_a_running_run_keeps_its_counters() {
    let mut p = RunProgress::new(5, 2, 4, 0);
    p.initialize(5, 2);
    p.complete_pso_iteration();
    assert!(!p.is_initalized());
    p.initialize(5, 2);
    assert!(p.is_initalized());
    assert_eq!(p.current_iteration(), 1);
    assert_eq!(p.function_evaluations(), 5);
    p.complete_pso_iteration();
    assert_eq!(*p.status(), AlgorithmStatus::Running { Iterations: 2, FunctionEvaluations: 10 });
}

#[test]
fn counters_that_would_overflow_are_detected() {
    let mut p = RunProgress::new(usize::MAX, 1, 10, 0);
    p.initialize(usize::MAX, 1);
    assert!(p.pso_iteration_fits());
    p.complete_pso_iteration();
    assert_eq!(p.function_evaluations(), usize::MAX);
    assert!(!p.pso_iteration_fits());

    let q = RunProgress::new(usize::MAX / 3 + 1, 1, 10, 0);
    assert!(!q.sgo_iteration_fits());
    let r = RunProgress::new(usize::MAX / 3, 1, 10, 0);
    assert!(r.sgo_iteration_fits());
}
