use cora::error::{FailedError, Failure};

#[test]
fn failures_of_same_kind_and_message_are_equal() {
    assert!(Failure::fit("x") == Failure::fit("x"));
    assert!(Failure::fit("x") != Failure::predict("x"));
    assert!(Failure::fit("x") != Failure::fit("y"));
}

#[test]
fn constructors_set_kind_and_message() {
    let f = Failure::transform("bad shape");
    assert!(f.error() == FailedError::TransformFailed);
    assert_eq!(f.message(), "bad shape");
    assert!(Failure::fit("a").error() == FailedError::FitFailed);
    assert!(Failure::predict("a").error() == FailedError::PredictFailed);
    let g = Failure::because(FailedError::SolutionFailed, "singular");
    assert!(g.error() == FailedError::SolutionFailed);
    assert_eq!(g.message(), "singular");
}

#[test]
fn failure_text_is_kind_then_message() {
    assert_eq!(Failure::fit("no data").to_string(), "Fit failed: no data");
    assert_eq!(
        Failure::because(FailedError::SolutionFailed, "singular").to_string(),
        "Can not find solution: singular"
    );
    assert_eq!(
        Failure::because(FailedError::DecompositionFailed, "").to_string(),
        "Decomposition failed: "
    );
}

#[test]
fn kind_texts() {
    assert_eq!(FailedError::FitFailed.to_string(), "Fit failed");
    assert_eq!(FailedError::PredictFailed.to_string(), "Predict failed");
    assert_eq!(FailedError::TransformFailed.to_string(), "Transform failed");
    assert_eq!(FailedError::FindFailed.to_string(), "Find failed");
    assert_eq!(FailedError::DecompositionFailed.to_string(), "Decomposition failed");
    assert_eq!(FailedError::SolutionFailed.to_string(), "Can not find solution");
}

#[test]
fn ordinals_are_stable_and_round_trip() {
    let kinds = [
        FailedError::FitFailed,
        FailedError::PredictFailed,
        FailedError::TransformFailed,
        FailedError::FindFailed,
        FailedError::DecompositionFailed,
        FailedError::SolutionFailed,
    ];
    for (i, k) in kinds.iter().enumerate() {
        assert_eq!(k.ordinal() as usize, i + 1);
        assert!(FailedError::from_ordinal(k.ordinal()) == Some(*k));
    }
    assert!(FailedError::from_ordinal(0).is_none());
    assert!(FailedError::from_ordinal(7).is_none());
    assert!(FailedError::FindFailed != FailedError::FitFailed);
}
