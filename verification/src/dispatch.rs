use vstd::prelude::*;
use crate::error::ApplicationError;
use crate::outcome::{op1_result_matches, op2_result_matches, Op1Outcome, Op2Outcome};
use crate::queries::operation1::{Operation1, Operation1Query};
use crate::queries::operation2::{Operation2, Operation2Query};

verus! {

/// Abstract capability interface of the dispatcher.
///
/// The handler depends on this trait, never on the concrete dispatcher, so
/// that a test double recording calls and returning scripted outcomes can
/// stand in at every call site. Each capability is safe to call from
/// concurrent tasks: it takes `&self` and promises an outcome that is a
/// function of the dispatcher's own state and the input alone.
pub trait AppInitialisation {
    /// The outcome capability A yields for the given input. Unspecified
    /// unless the implementation says otherwise: a dispatcher left with
    /// this default promises nothing of what operation A returns.
    open spec fn op1_result(&self, something: Seq<char>) -> Op1Outcome {
        arbitrary()
    }

    /// The outcome capability B yields for the given input. Unspecified
    /// unless the implementation says otherwise: a dispatcher left with
    /// this default promises nothing of what operation B returns.
    open spec fn op2_result(&self, something: Seq<char>) -> Op2Outcome {
        arbitrary()
    }

    /// Invokes operation A once.
    fn operation1(&self, something: &str) -> (r: Result<String, ApplicationError>)
        ensures
            op1_result_matches(r, self.op1_result(something@)),
    ;

    /// Invokes operation B once.
    fn operation2(&self, something: &str) -> (r: Result<Option<String>, ApplicationError>)
        ensures
            op2_result_matches(r, self.op2_result(something@)),
    ;
}

/// The concrete dispatcher: owns the fixed set of operations, constructed
/// once at process start and logically immutable afterwards. Each
/// capability call forwards to the corresponding operation's `execute`.
#[derive(Debug, Clone)]
pub struct AppClient {
    pub operation1: Operation1,
    pub operation2: Operation2,
}

impl AppClient {
    /// Starts builder-style construction with no operation set yet.
    pub fn builder() -> (r: AppClientBuilder)
        ensures
            r.operation1 is None,
            r.operation2 is None,
    {
        AppClientBuilder { operation1: Option::None, operation2: Option::None }
    }
}

impl AppInitialisation for AppClient {
    open spec fn op1_result(&self, something: Seq<char>) -> Op1Outcome {
        self.operation1.query_result(something)
    }

    open spec fn op2_result(&self, something: Seq<char>) -> Op2Outcome {
        self.operation2.query_result(something)
    }

    fn operation1(&self, something: &str) -> (r: Result<String, ApplicationError>) {
        self.operation1.execute(something)
    }

    fn operation2(&self, something: &str) -> (r: Result<Option<String>, ApplicationError>) {
        self.operation2.execute(something)
    }
}

/// Builder-style configuration for the dispatcher. Recognized options:
/// `operation1` and `operation2`, the two operations it owns.
pub struct AppClientBuilder {
    pub operation1: Option<Operation1>,
    pub operation2: Option<Operation2>,
}

impl AppClientBuilder {
    /// Sets operation A.
    pub fn operation1(self, operation1: Operation1) -> (r: Self)
        ensures
            r.operation1 == Option::Some(operation1),
            r.operation2 == self.operation2,
    {
        AppClientBuilder { operation1: Option::Some(operation1), operation2: self.operation2 }
    }

    /// Sets operation B.
    pub fn operation2(self, operation2: Operation2) -> (r: Self)
        ensures
            r.operation2 == Option::Some(operation2),
            r.operation1 == self.operation1,
    {
        AppClientBuilder { operation1: self.operation1, operation2: Option::Some(operation2) }
    }

    /// Finishes construction. Both operations must have been set before
    /// this is called.
    pub fn build(self) -> (r: AppClient)
        requires
            self.operation1 is Some,
            self.operation2 is Some,
        ensures
            r.operation1 == self.operation1->0,
            r.operation2 == self.operation2->0,
    {
        AppClient { operation1: self.operation1.unwrap(), operation2: self.operation2.unwrap() }
    }
}

} // verus!
