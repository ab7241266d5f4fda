//! The greeting and farewell services, each behind request validation.
use vstd::prelude::*;
use vstd::string::*;

use crate::constraint::{
    outcome_of, CheckModel, Constrained, Constraint, FieldCheck, OutcomeModel, Rule,
    ViolationModel,
};
use crate::status::{validate, validation_error, RpcError};

verus! {

/// A request that names the person to greet.
#[derive(Clone, Debug, PartialEq, Eq)]
pub struct HelloRequest {
    pub name: String,
}

/// The reply of both services.
#[derive(Clone, Debug, PartialEq, Eq)]
pub struct HelloReply {
    pub message: String,
}

/// The one constraint of `HelloRequest`: `name` must not be empty.
pub open spec fn name_required(name: Seq<char>) -> CheckModel {
    CheckModel {
        field_path: "name"@,
        constraint_id: "required"@,
        message: "name must not be empty"@,
        rule: Rule::Required,
        value: Some(name),
    }
}

/// The violation reported for an empty `name`.
pub open spec fn name_required_violation() -> ViolationModel {
    ViolationModel {
        field_path: "name"@,
        constraint_id: "required"@,
        message: "name must not be empty"@,
    }
}

impl Constrained for HelloRequest {
    open spec fn spec_checks(&self) -> Seq<CheckModel> {
        seq![name_required(self.name@)]
    }

    fn checks(&self) -> (r: Vec<FieldCheck>) {
        let c = FieldCheck {
            constraint: Constraint {
                field_path: String::from_str("name"),
                constraint_id: String::from_str("required"),
                message: String::from_str("name must not be empty"),
                rule: Rule::Required,
            },
            value: Some(self.name.clone()),
        };
        let r = vec![c];
        assert(crate::constraint::checks_view(r@) =~= self.spec_checks());
        r
    }
}

/// What validation decides on a `HelloRequest`: valid exactly when the name is
/// non-empty, and otherwise the single `name` violation.
pub proof fn lemma_hello_outcome(name: Seq<char>)
    ensures
        name.len() > 0 ==> outcome_of(seq![name_required(name)]) == OutcomeModel::Valid,
        name.len() == 0 ==> outcome_of(seq![name_required(name)]) == OutcomeModel::Invalid(
            seq![name_required_violation()],
        ),
{
    let s = seq![name_required(name)];
    reveal(Seq::filter);
    assert(s.drop_last() =~= Seq::<CheckModel>::empty());
    assert(s.drop_last().filter(|c: CheckModel| c.fails()) =~= Seq::<CheckModel>::empty());
    if name.len() == 0 {
        assert(s.filter(|c: CheckModel| c.fails()) =~= s);
        assert(crate::constraint::violations_of(s) =~= seq![name_required_violation()]);
    } else {
        assert(s.filter(|c: CheckModel| c.fails()) =~= Seq::<CheckModel>::empty());
        assert(crate::constraint::violations_of(s) =~= Seq::<ViolationModel>::empty());
    }
}

/// The greeting for `name`.
pub open spec fn greeting(name: Seq<char>) -> Seq<char> {
    "Hello, "@ + name + "!"@
}

/// The farewell for `name`.
pub open spec fn farewell(name: Seq<char>) -> Seq<char> {
    "Goodbye, "@ + name + "!"@
}

/// What a service owes for `request`: the reply with `message(name)` when the
/// name is non-empty, else the validation error for the empty name.
pub open spec fn served(
    request: HelloRequest,
    r: Result<HelloReply, RpcError>,
    message: spec_fn(Seq<char>) -> Seq<char>,
) -> bool {
    if request.name@.len() > 0 {
        r is Ok && r->Ok_0.message@ == message(request.name@)
    } else {
        r is Err && r->Err_0@ == validation_error(seq![name_required_violation()])
    }
}

/// The greeting service.
#[derive(Clone, Copy, Debug, Default)]
pub struct MyGreeter;

impl MyGreeter {
    /// Greets the named person, once the request has passed validation.
    pub fn say_hello(&self, request: HelloRequest) -> (r: Result<HelloReply, RpcError>)
        ensures
            served(request, r, |n: Seq<char>| greeting(n)),
    {
        proof {
            lemma_hello_outcome(request.name@);
        }
        let handler = |req: HelloRequest| -> (r: Result<HelloReply, RpcError>)
            ensures
                r is Ok && r->Ok_0.message@ == greeting(req.name@),
            {
                let message = String::from_str("Hello, ").concat(req.name.as_str()).concat("!");
                Ok(HelloReply { message })
            };
        validate(request, handler)
    }
}

/// The farewell service.
#[derive(Clone, Copy, Debug, Default)]
pub struct MyFarewell;

impl MyFarewell {
    /// Says goodbye to the named person, once the request has passed validation.
    pub fn say_good_bye(&self, request: HelloRequest) -> (r: Result<HelloReply, RpcError>)
        ensures
            served(request, r, |n: Seq<char>| farewell(n)),
    {
        proof {
            lemma_hello_outcome(request.name@);
        }
        let handler = |req: HelloRequest| -> (r: Result<HelloReply, RpcError>)
            ensures
                r is Ok && r->Ok_0.message@ == farewell(req.name@),
            {
                let message = String::from_str("Goodbye, ").concat(req.name.as_str()).concat("!");
                Ok(HelloReply { message })
            };
        validate(request, handler)
    }
}

} // verus!
