# uncertain_numerics

Probabilistic numerical methods — one-dimensional Bayesian quadrature, active
Bayesian quadrature, and probabilistic solvers for dense SPD linear systems —
with their decision logic verified by Verus.

## Layout

- `src/` — the verified library. It holds everything these methods *decide*:
  - the validation rule of every constructor and solver entry point, stated as
    a spec function that names the error reported for each input (`check_*`);
  - the typed errors and their messages;
  - deterministic first-maximum selection over order keys of acquisition values;
  - the candidate pool of sequential designs, whose accounting invariant keeps
    selected plus remaining candidates equal to the initial candidate set and
    the remaining candidates in their original relative order;
  - the stopping rules of active Bayesian quadrature, of the covariance-greedy
    solver and of the residual-projection and A-conjugate solvers;
  - the row-major layout helpers used by symmetry checks and traces.

  Real numbers never enter `src/`: a real input reaches it as a `ScalarClass`,
  a comparison with a tolerance as a `bool`, an acquisition value as a `u64`
  order key.
- `app/` — the numerical layer in `f64`: kernels, measures, kernel means and
  integrals, Cholesky conditioning and eigenvalue checks through `nalgebra`,
  posteriors, and the solver loops, each following the library's verdicts.
- `tests/` — tests of the verified library on concrete values.
