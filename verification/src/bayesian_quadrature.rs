use vstd::prelude::*;

use crate::bayesian_quadrature_error::BayesianQuadratureError;
use crate::scalar::{all_finite, entries_finite, verdict, ScalarClass};

verus! {

/// The error that Bayesian quadrature reports for observation nodes and
/// function values of the given classes, or `None` when they are valid.
///
/// The checks run in this order: at least one node, as many values as nodes,
/// finite nodes, finite values.
pub open spec fn observation_error<R>(
    nodes: Seq<ScalarClass>,
    values: Seq<ScalarClass>,
) -> Option<BayesianQuadratureError<R>> {
    if nodes.len() == 0 {
        Some(BayesianQuadratureError::EmptyObservations)
    } else if nodes.len() != values.len() {
        Some(BayesianQuadratureError::ObservationLengthMismatch)
    } else if !all_finite(nodes) {
        Some(BayesianQuadratureError::NonFiniteObservationNode)
    } else if !all_finite(values) {
        Some(BayesianQuadratureError::NonFiniteObservationValue)
    } else {
        None
    }
}

/// Validate observation nodes and values before a Bayesian quadrature posterior
/// is computed from them.
pub fn check_observations<R>(nodes: &[ScalarClass], values: &[ScalarClass]) -> (result: Result<
    (),
    BayesianQuadratureError<R>,
>)
    ensures
        result == verdict(observation_error::<R>(nodes@, values@)),
        result is Ok <==> nodes@.len() > 0 && nodes@.len() == values@.len() && (forall|i: int|
            0 <= i < nodes@.len() ==> !(#[trigger] nodes@[i] is NonFinite)) && (forall|i: int|
            0 <= i < values@.len() ==> !(#[trigger] values@[i] is NonFinite)),
        result == Err::<(), _>(BayesianQuadratureError::<R>::EmptyObservations) <==> nodes@.len()
            == 0,
        result == Err::<(), _>(BayesianQuadratureError::<R>::ObservationLengthMismatch) <==> nodes@.len()
            > 0 && nodes@.len() != values@.len(),
        result == Err::<(), _>(BayesianQuadratureError::<R>::NonFiniteObservationNode) <==> nodes@.len()
            > 0 && nodes@.len() == values@.len() && (exists|i: int|
            0 <= i < nodes@.len() && #[trigger] nodes@[i] is NonFinite),
        result == Err::<(), _>(BayesianQuadratureError::<R>::NonFiniteObservationValue) <==> nodes@.len()
            > 0 && nodes@.len() == values@.len() && (forall|i: int|
            0 <= i < nodes@.len() ==> !(#[trigger] nodes@[i] is NonFinite)) && (exists|i: int|
            0 <= i < values@.len() && #[trigger] values@[i] is NonFinite),
{
    if nodes.len() == 0 {
        return Err(BayesianQuadratureError::EmptyObservations);
    }
    if nodes.len() != values.len() {
        return Err(BayesianQuadratureError::ObservationLengthMismatch);
    }
    if !entries_finite(nodes) {
        return Err(BayesianQuadratureError::NonFiniteObservationNode);
    }
    if !entries_finite(values) {
        return Err(BayesianQuadratureError::NonFiniteObservationValue);
    }
    Ok(())
}

/// Observations are accepted exactly when there is at least one node, as many
/// values as nodes, and every node and every value is finite; the sign of a
/// node or a value never matters. Each error names the first unmet condition.
pub proof fn lemma_observation_rule<R>(nodes: Seq<ScalarClass>, values: Seq<ScalarClass>)
    ensures
        observation_error::<R>(nodes, values) is None <==> nodes.len() > 0 && nodes.len()
            == values.len() && (forall|i: int| 0 <= i < nodes.len() ==> !(#[trigger] nodes[i] is NonFinite))
            && (forall|i: int| 0 <= i < values.len() ==> !(#[trigger] values[i] is NonFinite)),
        (observation_error::<R>(nodes, values) == Some(
            BayesianQuadratureError::<R>::EmptyObservations,
        )) <==> nodes.len() == 0,
        (observation_error::<R>(nodes, values) == Some(
            BayesianQuadratureError::<R>::ObservationLengthMismatch,
        )) <==> nodes.len() > 0 && nodes.len() != values.len(),
        (observation_error::<R>(nodes, values) == Some(
            BayesianQuadratureError::<R>::NonFiniteObservationNode,
        )) <==> nodes.len() > 0 && nodes.len() == values.len() && (exists|i: int| 0 <= i < nodes.len() && #[trigger] nodes[i] is NonFinite),
        (observation_error::<R>(nodes, values) == Some(
            BayesianQuadratureError::<R>::NonFiniteObservationValue,
        )) <==> nodes.len() > 0 && nodes.len() == values.len() && (forall|i: int| 0 <= i < nodes.len() ==> !(#[trigger] nodes[i] is NonFinite)) && (exists|i: int| 0 <= i < values.len() && #[trigger] values[i] is NonFinite),
{
}

/// Changing the sign of finite nodes or values (keeping them finite) never
/// changes the verdict on a set of observations.
pub proof fn lemma_observation_rule_ignores_signs<R>(
    nodes: Seq<ScalarClass>,
    values: Seq<ScalarClass>,
    other_nodes: Seq<ScalarClass>,
    other_values: Seq<ScalarClass>,
)
    requires
        nodes.len() == other_nodes.len(),
        values.len() == other_values.len(),
        forall|i: int| 0 <= i < nodes.len() ==> (nodes[i] is NonFinite <==> other_nodes[i] is NonFinite),
        forall|i: int| 0 <= i < values.len() ==> (values[i] is NonFinite <==> other_values[i] is NonFinite),
    ensures
        observation_error::<R>(nodes, values) == observation_error::<R>(other_nodes, other_values),
{
}

} // verus!
