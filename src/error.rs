use vstd::prelude::*;

use vstd::std_specs::cmp::PartialEqSpec;

verus! {

/// The closed set of ways an algorithm of the toolkit can fail.
#[derive(Clone, Copy, Debug)]
pub enum FailedError {
    /// Can not fit algorithm to data
    FitFailed,
    /// Can not predict new values
    PredictFailed,
    /// Can not transform data
    TransformFailed,
    /// Can not find an item
    FindFailed,
    /// Can not decompose a matrix
    DecompositionFailed,
    /// Can not solve for X
    SolutionFailed,
}

/// The stable ordinal of each kind, as it is written when a failure is serialized.
pub open spec fn ordinal_of(e: FailedError) -> u8 {
    match e {
        FailedError::FitFailed => 1,
        FailedError::PredictFailed => 2,
        FailedError::TransformFailed => 3,
        FailedError::FindFailed => 4,
        FailedError::DecompositionFailed => 5,
        FailedError::SolutionFailed => 6,
    }
}

/// The human text of each kind.
pub open spec fn kind_text_of(e: FailedError) -> Seq<char> {
    match e {
        FailedError::FitFailed => "Fit failed"@,
        FailedError::PredictFailed => "Predict failed"@,
        FailedError::TransformFailed => "Transform failed"@,
        FailedError::FindFailed => "Find failed"@,
        FailedError::DecompositionFailed => "Decomposition failed"@,
        FailedError::SolutionFailed => "Can not find solution"@,
    }
}

impl FailedError {
    /// The stable ordinal of this kind, from 1 to 6.
    pub fn ordinal(&self) -> (r: u8)
        ensures
            r == ordinal_of(*self),
            1 <= r <= 6,
    {
        match self {
            FailedError::FitFailed => 1,
            FailedError::PredictFailed => 2,
            FailedError::TransformFailed => 3,
            FailedError::FindFailed => 4,
            FailedError::DecompositionFailed => 5,
            FailedError::SolutionFailed => 6,
        }
    }

    /// The kind with the given ordinal, if there is one.
    pub fn from_ordinal(n: u8) -> (r: Option<FailedError>)
        ensures
            r is Some <==> 1 <= n <= 6,
            r matches Some(e) ==> ordinal_of(e) == n,
    {
        match n {
            1 => Some(FailedError::FitFailed),
            2 => Some(FailedError::PredictFailed),
            3 => Some(FailedError::TransformFailed),
            4 => Some(FailedError::FindFailed),
            5 => Some(FailedError::DecompositionFailed),
            6 => Some(FailedError::SolutionFailed),
            _ => None,
        }
    }

    /// The human text of this kind, as a failure message begins with it.
    pub fn to_string(&self) -> (r: String)
        ensures
            r@ == kind_text_of(*self),
    {
        let s: &str = match self {
            FailedError::FitFailed => "Fit failed",
            FailedError::PredictFailed => "Predict failed",
            FailedError::TransformFailed => "Transform failed",
            FailedError::FindFailed => "Find failed",
            FailedError::DecompositionFailed => "Decomposition failed",
            FailedError::SolutionFailed => "Can not find solution",
        };
        proof {
            reveal_strlit("Fit failed");
            reveal_strlit("Predict failed");
            reveal_strlit("Transform failed");
            reveal_strlit("Find failed");
            reveal_strlit("Decomposition failed");
            reveal_strlit("Can not find solution");
        }
        s.to_owned()
    }
}

/// Two kinds are equal exactly when their ordinals are.
impl PartialEq for FailedError {
    fn eq(&self, rhs: &Self) -> (r: bool) {
        self.ordinal() == rhs.ordinal()
    }
}

impl vstd::std_specs::cmp::PartialEqSpecImpl for FailedError {
    open spec fn obeys_eq_spec() -> bool {
        true
    }

    open spec fn eq_spec(&self, rhs: &FailedError) -> bool {
        ordinal_of(*self) == ordinal_of(*rhs)
    }
}

/// An algorithm failure: its kind and a message.
#[derive(Debug)]
pub struct Failure {
    err: FailedError,
    msg: String,
}

impl Failure {
    /// The kind of this failure.
    pub closed spec fn kind(&self) -> FailedError {
        self.err
    }

    /// The message of this failure.
    pub closed spec fn text(&self) -> Seq<char> {
        self.msg@
    }

    /// Get the kind of this failure.
    #[inline]
    pub fn error(&self) -> (r: FailedError)
        ensures
            r == self.kind(),
    {
        self.err
    }

    /// Get the message of this failure.
    pub fn message(&self) -> (r: String)
        ensures
            r@ == self.text(),
    {
        self.msg.clone()
    }

    /// A new failure of kind `FitFailed`.
    pub fn fit(msg: &str) -> (r: Self)
        ensures
            r.kind() == FailedError::FitFailed,
            r.text() == msg@,
    {
        Failure { err: FailedError::FitFailed, msg: msg.to_owned() }
    }

    /// A new failure of kind `PredictFailed`.
    pub fn predict(msg: &str) -> (r: Self)
        ensures
            r.kind() == FailedError::PredictFailed,
            r.text() == msg@,
    {
        Failure { err: FailedError::PredictFailed, msg: msg.to_owned() }
    }

    /// A new failure of kind `TransformFailed`.
    pub fn transform(msg: &str) -> (r: Self)
        ensures
            r.kind() == FailedError::TransformFailed,
            r.text() == msg@,
    {
        Failure { err: FailedError::TransformFailed, msg: msg.to_owned() }
    }

    /// A new failure of kind `err`.
    pub fn because(err: FailedError, msg: &str) -> (r: Self)
        ensures
            r.kind() == err,
            r.text() == msg@,
    {
        Failure { err, msg: msg.to_owned() }
    }

    /// The failure's text: the kind's text, a colon and a space, then the message.
    pub fn to_string(&self) -> (r: String)
        ensures
            r@ == kind_text_of(self.kind()) + ": "@ + self.text(),
    {
        let mut s = self.err.to_string();
        proof {
            reveal_strlit(": ");
        }
        s.append(": ");
        s.append(self.msg.as_str());
        s
    }
}

/// Two failures are equal when their kinds and messages are.
impl PartialEq for Failure {
    fn eq(&self, rhs: &Self) -> (r: bool) {
        self.err == rhs.err && self.msg == rhs.msg
    }
}

impl vstd::std_specs::cmp::PartialEqSpecImpl for Failure {
    open spec fn obeys_eq_spec() -> bool {
        true
    }

    open spec fn eq_spec(&self, rhs: &Failure) -> bool {
        self.kind() == rhs.kind() && self.text() == rhs.text()
    }
}

/// Distinct kinds have distinct ordinals, so a kind is recovered from its ordinal.
pub proof fn lemma_ordinal_injective(a: FailedError, b: FailedError)
    ensures
        ordinal_of(a) == ordinal_of(b) <==> a == b,
{
}

/// Two failures built with the same kind and the same message are equal; failures of
/// different kinds are not equal, whatever their messages.
pub proof fn lemma_failure_eq(a: Failure, b: Failure)
    ensures
        a.kind() == b.kind() && a.text() == b.text() ==> a.eq_spec(&b),
        a.kind() != b.kind() ==> !a.eq_spec(&b),
{
}

} // verus!
