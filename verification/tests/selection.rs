use uncertain_numerics::{first_maximum, CovarianceTraceAcquisition, LinearSolverError};

#[test]
fn first_maximum_of_no_keys_is_none() {
    assert_eq!(first_maximum(&[]), None);
}

#[test]
fn first_maximum_returns_the_global_maximum() {
    assert_eq!(first_maximum(&[3, 9, 1, 4]), Some(1));
    assert_eq!(first_maximum(&[7]), Some(0));
    assert_eq!(first_maximum(&[1, 2, 3, 4]), Some(3));
}

#[test]
fn ties_are_resolved_in_favour_of_the_first_maximum() {
    assert_eq!(first_maximum(&[5, 9, 2, 9, 9]), Some(1));
    assert_eq!(first_maximum(&[4, 4, 4]), Some(0));
}

#[test]
fn trace_acquisition_rejects_an_empty_candidate_set() {
    assert_eq!(
        CovarianceTraceAcquisition::select_best_index(&[]),
        Err(LinearSolverError::EmptyCandidateDirections)
    );
    assert_eq!(CovarianceTraceAcquisition::select_best_index(&[2, 8, 8, 1]), Ok(1));
}
