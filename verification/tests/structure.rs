use metaheuristics::algorithm_structure::{
    AlgorithmStatus, BasicTuningParameters, BoundingAction, BoundingStrategy, CustomName,
};
use metaheuristics::{DEFAULT_DIMENSIONS, DEFAULT_ITERATIONS, DEFAULT_POPULATION_SIZE};

#[test]
fn defaults_have_the_documented_values() {
    assert_eq!(DEFAULT_POPULATION_SIZE, 50);
    assert_eq!(DEFAULT_ITERATIONS, 500);
    assert_eq!(DEFAULT_DIMENSIONS, 10);
}

#[test]
fn tuning_parameters_keep_their_values() {
    let params = BasicTuningParameters::new(30, 200, 6000);
    assert_eq!(params.get_total_iterations(), 200);
    assert_eq!(
        format!("{:?}", params),
        "BasicTuningParameters { Np: 30, Ite: 200, NFEs: 6000 }"
    );
}

#[test]
fn default_tuning_parameters_spend_one_evaluation_per_member_and_iteration() {
    let params = BasicTuningParameters::default();
    assert_eq!(params.get_total_iterations(), 500);
    assert_eq!(
        format!("{:?}", params),
        "BasicTuningParameters { Np: 50, Ite: 500, NFEs: 25000 }"
    );
}

#[test]
fn custom_name_keeps_the_given_name() {
    let name = CustomName::new("Swarm A");
    assert_eq!(format!("{:?}", name), "CustomName { Algorithm_CustomName: \"Swarm A\" }");
    let numbered = CustomName::new(7u32);
    assert_eq!(format!("{:?}", numbered), "CustomName { Algorithm_CustomName: 7 }");
}

#[test]
fn default_custom_name_is_no_name() {
    let name: CustomName<String> = CustomName::default();
    assert_eq!(format!("{:?}", name), "CustomName { Algorithm_CustomName: \"No Name\" }");
}

#[test]
fn statuses_compare_by_variant_and_fields() {
    assert_eq!(
        AlgorithmStatus::Initialized { Population: 3, Dimensions: 4 },
        AlgorithmStatus::Initialized { Population: 3, Dimensions: 4 }
    );
    assert_ne!(
        AlgorithmStatus::Initialized { Population: 3, Dimensions: 4 },
        AlgorithmStatus::Initialized { Population: 4, Dimensions: 3 }
    );
    assert_ne!(
        AlgorithmStatus::Running { Iterations: 1, FunctionEvaluations: 10 },
        AlgorithmStatus::Completed
    );
    assert_eq!(AlgorithmStatus::Not_Initialized, AlgorithmStatus::Not_Initialized);
}

#[test]
fn each_strategy_names_its_bounding_action() {
    assert_eq!(BoundingStrategy::Clamping.action(), BoundingAction::Clamp);
    assert_eq!(BoundingStrategy::Reflecting.action(), BoundingAction::Reflect);
    assert_eq!(BoundingStrategy::Wrapping.action(), BoundingAction::Wrap);
    assert_eq!(BoundingStrategy::ReInitialization.action(), BoundingAction::ReInitialize);
}

#[test]
fn penalization_falls_back_to_clamping() {
    assert_eq!(BoundingStrategy::Penalization.action(), BoundingAction::Clamp);
}
