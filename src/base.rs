use vstd::prelude::*;

verus! {

/// A model that can be trained: `fit` consumes training features `x`, targets `y`
/// and the algorithm's parameters, and returns the fitted model or an error.
pub trait BaseEstimator<M, P, E> {
    fn fit(self, x: &M, y: &M, fit_params: P) -> Result<Self, E>
        where
            Self: Sized,
    ;
}

/// A fitted model that predicts class labels for the rows of `x`.
pub trait Classifier<M, E> {
    fn predict(self, x: &M) -> Result<M, E>;
}

/// A fitted model that predicts values for the rows of `x`.
pub trait Regressor<M, E> {
    fn predict(self, x: &M) -> Result<M, E>;
}

} // verus!
