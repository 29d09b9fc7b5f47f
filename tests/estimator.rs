use cora::base::{BaseEstimator, Classifier, Regressor};
use cora::error::{FailedError, Failure};

#[derive(Debug)]
struct MeanModel {
    mean: Option<f64>,
}

impl BaseEstimator<Vec<f64>, (), Failure> for MeanModel {
    fn fit(self, _x: &Vec<f64>, y: &Vec<f64>, _fit_params: ()) -> Result<Self, Failure> {
        if y.is_empty() {
            return Err(Failure::fit("no targets"));
        }
        Ok(MeanModel {
            mean: Some(y.iter().sum::<f64>() / y.len() as f64),
        })
    }
}

impl Regressor<Vec<f64>, Failure> for MeanModel {
    fn predict(self, x: &Vec<f64>) -> Result<Vec<f64>, Failure> {
        match self.mean {
            Some(m) => Ok(vec![m; x.len()]),
            None => Err(Failure::predict("model is not fitted")),
        }
    }
}

impl Classifier<Vec<f64>, Failure> for MeanModel {
    fn predict(self, x: &Vec<f64>) -> Result<Vec<f64>, Failure> {
        match self.mean {
            Some(m) => Ok(x.iter().map(|_| if m >= 0.5 { 1.0 } else { 0.0 }).collect()),
            None => Err(Failure::predict("model is not fitted")),
        }
    }
}

#[test]
fn estimator_fits_then_predicts() {
    let m = MeanModel { mean: None }
        .fit(&vec![1.0, 2.0], &vec![2.0, 4.0], ())
        .unwrap();
    assert_eq!(Regressor::predict(m, &vec![0.0; 3]).unwrap(), vec![3.0, 3.0, 3.0]);
}

#[test]
fn estimator_failures_carry_their_kind() {
    let e = MeanModel { mean: None }.fit(&vec![], &vec![], ()).unwrap_err();
    assert!(e.error() == FailedError::FitFailed);
    assert_eq!(e.to_string(), "Fit failed: no targets");
    let p = Classifier::predict(MeanModel { mean: None }, &vec![1.0]).unwrap_err();
    assert!(p == Failure::predict("model is not fitted"));
}
