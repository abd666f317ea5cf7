use uncertain_numerics::{
    ActiveDesignError, ActiveSelectionError, BayesianQuadratureError, ConditioningError,
    KernelError, LinearSolverError, MeasureError, PosteriorError, PriorMeanError,
};

#[test]
fn posterior_error_messages() {
    assert_eq!(PosteriorError::NonFiniteMean.message(), "posterior mean must be finite");
    assert_eq!(PosteriorError::NonFiniteVariance.message(), "posterior variance must be finite");
    assert_eq!(
        PosteriorError::NegativeVariance.message(),
        "posterior variance must be non-negative"
    );
}

#[test]
fn kernel_error_messages() {
    assert_eq!(
        KernelError::NonFiniteSignalVariance.message(),
        "signal variance must be finite"
    );
    assert_eq!(
        KernelError::NonPositiveSignalVariance.message(),
        "signal variance must be strictly positive"
    );
    assert_eq!(KernelError::NonFiniteLengthScale.message(), "length scale must be finite");
    assert_eq!(
        KernelError::NonPositiveLengthScale.message(),
        "length scale must be strictly positive"
    );
}

#[test]
fn measure_and_prior_mean_error_messages() {
    assert_eq!(MeasureError::NonFiniteMean.message(), "measure mean must be finite");
    assert_eq!(MeasureError::NonFiniteVariance.message(), "measure variance must be finite");
    assert_eq!(
        MeasureError::NonPositiveVariance.message(),
        "measure variance must be strictly positive"
    );
    assert_eq!(
        PriorMeanError::NonFiniteConstant.message(),
        "constant prior mean must be finite"
    );
    assert_eq!(
        PriorMeanError::NonFiniteIntercept.message(),
        "affine prior mean intercept must be finite"
    );
    assert_eq!(
        PriorMeanError::NonFiniteSlope.message(),
        "affine prior mean slope must be finite"
    );
}

#[test]
fn conditioning_error_messages() {
    assert_eq!(
        ConditioningError::ZeroDimension.message(),
        "conditioning matrix dimension must be positive"
    );
    assert_eq!(
        ConditioningError::MatrixDimensionMismatch.message(),
        "flattened conditioning matrix length must equal dimension squared"
    );
    assert_eq!(
        ConditioningError::NonFiniteMatrixEntry.message(),
        "conditioning matrix entries must be finite"
    );
    assert_eq!(ConditioningError::NonFiniteJitter.message(), "conditioning jitter must be finite");
    assert_eq!(
        ConditioningError::NegativeJitter.message(),
        "conditioning jitter must be non-negative"
    );
    assert_eq!(
        ConditioningError::NotPositiveDefinite.message(),
        "conditioning matrix is not positive definite after applying jitter"
    );
    assert_eq!(
        ConditioningError::RightHandSideDimensionMismatch.message(),
        "right-hand-side length must equal conditioning matrix dimension"
    );
    assert_eq!(
        ConditioningError::NonFiniteRightHandSideEntry.message(),
        "right-hand-side entries must be finite"
    );
}

#[test]
fn linear_solver_error_messages() {
    let expected = [
        (LinearSolverError::ZeroDimension, "linear-system dimension must be positive"),
        (
            LinearSolverError::MatrixDimensionMismatch,
            "flattened matrix length must equal dimension squared",
        ),
        (
            LinearSolverError::VectorDimensionMismatch,
            "vector length must equal the system dimension",
        ),
        (LinearSolverError::NonFiniteMatrixEntry, "matrix entries must be finite"),
        (LinearSolverError::NonFiniteVectorEntry, "vector entries must be finite"),
        (LinearSolverError::NonFiniteTolerance, "solver tolerances must be finite"),
        (LinearSolverError::NegativeTolerance, "solver tolerances must be non-negative"),
        (
            LinearSolverError::EmptyCandidateDirections,
            "at least one candidate projection direction is required",
        ),
        (LinearSolverError::NonSymmetricSystemMatrix, "system matrix must be symmetric"),
        (
            LinearSolverError::SystemMatrixNotPositiveDefinite,
            "system matrix must be positive definite",
        ),
        (LinearSolverError::NonSymmetricCovariance, "covariance matrix must be symmetric"),
        (
            LinearSolverError::CovarianceNotPositiveSemidefinite,
            "covariance matrix must be positive semidefinite",
        ),
        (
            LinearSolverError::DegenerateObservation,
            "observation direction has no remaining prior uncertainty",
        ),
    ];
    for (error, message) in expected {
        assert_eq!(error.message(), message);
    }
}

#[test]
fn errors_wrap_their_causes_through_from() {
    let conditioning: BayesianQuadratureError<f64> = ConditioningError::NotPositiveDefinite.into();
    assert_eq!(
        conditioning,
        BayesianQuadratureError::Conditioning(ConditioningError::NotPositiveDefinite)
    );
    let posterior: BayesianQuadratureError<f64> = PosteriorError::NegativeVariance.into();
    assert_eq!(posterior, BayesianQuadratureError::Posterior(PosteriorError::NegativeVariance));

    let selection: ActiveSelectionError<f64> = BayesianQuadratureError::EmptyObservations.into();
    assert_eq!(
        selection,
        ActiveSelectionError::Acquisition(BayesianQuadratureError::EmptyObservations)
    );
    let design: ActiveDesignError<f64> = ActiveSelectionError::EmptyCandidates.into();
    assert_eq!(design, ActiveDesignError::Selection(ActiveSelectionError::EmptyCandidates));
    let design: ActiveDesignError<f64> =
        BayesianQuadratureError::MateriallyNegativePosteriorVariance {
            value: -1.0e-6,
            tolerance: 1.0e-14,
        }
        .into();
    assert_eq!(
        design,
        ActiveDesignError::Posterior(BayesianQuadratureError::MateriallyNegativePosteriorVariance {
            value: -1.0e-6,
            tolerance: 1.0e-14,
        })
    );
}

#[test]
fn bayesian_quadrature_error_messages() {
    let sentence = "variance sentence";
    let expected: Vec<(BayesianQuadratureError<f64>, &str)> = vec![
        (BayesianQuadratureError::EmptyObservations, "at least one observation is required"),
        (
            BayesianQuadratureError::ObservationLengthMismatch,
            "observation nodes and values must have equal lengths",
        ),
        (BayesianQuadratureError::NonFiniteObservationNode, "observation nodes must be finite"),
        (
            BayesianQuadratureError::NonFiniteObservationValue,
            "observed function values must be finite",
        ),
        (
            BayesianQuadratureError::Conditioning(ConditioningError::NonFiniteJitter),
            "Gaussian conditioning failed: conditioning jitter must be finite",
        ),
        (
            BayesianQuadratureError::Posterior(PosteriorError::NegativeVariance),
            "posterior construction failed: posterior variance must be non-negative",
        ),
        (
            BayesianQuadratureError::MateriallyNegativePosteriorVariance {
                value: -1.0e-6,
                tolerance: 1.0e-14,
            },
            "variance sentence",
        ),
    ];
    for (error, message) in expected {
        assert_eq!(error.message_with(sentence), message);
    }
}

#[test]
fn nested_error_messages_and_variance_payloads() {
    let negative = BayesianQuadratureError::MateriallyNegativePosteriorVariance {
        value: -2.0e-6,
        tolerance: 3.0e-14,
    };
    assert_eq!(negative.negative_variance(), Some((&-2.0e-6, &3.0e-14)));
    assert_eq!(BayesianQuadratureError::<f64>::EmptyObservations.negative_variance(), None);

    let selection = ActiveSelectionError::Acquisition(negative);
    assert_eq!(selection.negative_variance(), Some((&-2.0e-6, &3.0e-14)));
    assert_eq!(selection.message_with("v"), "acquisition evaluation failed: v");
    assert_eq!(
        ActiveSelectionError::<f64>::EmptyCandidates.message_with("v"),
        "at least one candidate is required"
    );
    assert_eq!(
        ActiveSelectionError::<f64>::NonFiniteCandidate.message_with("v"),
        "candidate points must be finite"
    );
    assert_eq!(ActiveSelectionError::<f64>::NonFiniteCandidate.negative_variance(), None);

    let design = ActiveDesignError::Selection(selection);
    assert_eq!(design.negative_variance(), Some((&-2.0e-6, &3.0e-14)));
    assert_eq!(
        design.message_with("v"),
        "active candidate selection failed: acquisition evaluation failed: v"
    );
    let design: ActiveDesignError<f64> =
        ActiveDesignError::Posterior(BayesianQuadratureError::EmptyObservations);
    assert_eq!(design.negative_variance(), None);
    assert_eq!(
        design.message_with("v"),
        "Bayesian quadrature failed: at least one observation is required"
    );
    let expected: Vec<(ActiveDesignError<f64>, &str)> = vec![
        (
            ActiveDesignError::NonFiniteVarianceTolerance,
            "posterior-variance stopping tolerance must be finite",
        ),
        (
            ActiveDesignError::NegativeVarianceTolerance,
            "posterior-variance stopping tolerance must be non-negative",
        ),
        (ActiveDesignError::NonFiniteCandidate, "candidate points must be finite"),
        (ActiveDesignError::NonFiniteFunctionValue, "active function evaluations must be finite"),
    ];
    for (error, message) in expected {
        assert_eq!(error.negative_variance(), None);
        assert_eq!(error.message_with("v"), message);
    }
}
