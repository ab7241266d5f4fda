//! The error returned to RPC callers, and the dispatcher that validates
//! every request before its handler runs.
use prost::Message;
use proto_types::protovalidate::{FieldPath, FieldPathElement, Violations};
use proto_types::Status as GrpcStatus;
use vstd::prelude::*;
use vstd::string::*;

use crate::constraint::{
    outcome_of, validation_outcome, violations_view, Constrained, OutcomeModel, ValidationOutcome,
    Violation, ViolationModel,
};

verus! {

/// The classification of an RPC failure, as gRPC defines it.
#[derive(Clone, Copy, Debug, PartialEq, Eq)]
pub enum Code {
    /// Not an error: the call succeeded.
    Success,
    Cancelled,
    Unknown,
    InvalidArgument,
    DeadlineExceeded,
    NotFound,
    AlreadyExists,
    PermissionDenied,
    ResourceExhausted,
    FailedPrecondition,
    Aborted,
    OutOfRange,
    Unimplemented,
    Internal,
    Unavailable,
    DataLoss,
    Unauthenticated,
}

/// A classified failure returned to the caller: a code, a short human
/// string, and an opaque binary payload of structured details.
#[derive(Clone, Debug, PartialEq, Eq)]
pub struct RpcError {
    pub code: Code,
    pub message: String,
    pub details: Vec<u8>,
}

/// The mathematical view of an `RpcError`.
pub struct RpcErrorModel {
    pub code: Code,
    pub message: Seq<char>,
    pub details: Seq<u8>,
}

impl View for RpcError {
    type V = RpcErrorModel;

    open spec fn view(&self) -> RpcErrorModel {
        RpcErrorModel { code: self.code, message: self.message@, details: self.details@ }
    }
}

/// The label that every validation failure carries.
pub open spec fn validation_label() -> Seq<char> {
    "Validation Error"@
}

/// The bytes of the `google.rpc.Status` message that carries `v` as a
/// `buf.validate.Violations` detail, in protobuf encoding.
pub uninterp spec fn status_details_of(v: Seq<ViolationModel>) -> Seq<u8>;

/// Each violation goes over as a `buf.validate.Violation` whose field path
/// has the violation's path as its one element. Relies on proto_types'
/// `From<Violations> for Status`, which wraps the violations in a
/// `google.rpc.Status` with code 3, and on prost's
/// `Message::encode_to_vec`, which encodes it: the bytes depend on the
/// violations alone.
#[verifier::external_body]
fn encode_details(v: &Vec<Violation>) -> (r: Vec<u8>)
    ensures
        r@ == status_details_of(violations_view(v@)),
{
    let violations = v.iter().map(|x| proto_types::protovalidate::Violation {
        field: Some(FieldPath { elements: vec![FieldPathElement {
            field_name: Some(x.field_path.clone()), ..Default::default() }] }),
        rule_id: Some(x.constraint_id.clone()),
        message: Some(x.message.clone()),
        ..Default::default()
    }).collect();
    GrpcStatus::from(Violations { violations }).encode_to_vec()
}

/// The error that rejects a request with violations `v`.
pub open spec fn validation_error(v: Seq<ViolationModel>) -> RpcErrorModel {
    RpcErrorModel {
        code: Code::InvalidArgument,
        message: validation_label(),
        details: status_details_of(v),
    }
}

/// Builds the error that rejects a request with the given violations.
pub fn rejection(violations: &Vec<Violation>) -> (r: RpcError)
    ensures
        r@ == validation_error(violations_view(violations@)),
{
    let details = encode_details(violations);
    RpcError { code: Code::InvalidArgument, message: String::from_str("Validation Error"), details }
}

/// Validates `req`; rejects it with an `InvalidArgument` error that
/// lists every violation, or else hands it to `handler` and returns what the
/// handler returns. The handler is called only on a valid request: it need
/// not accept an invalid one.
pub fn validate<T: Constrained, R, F: FnOnce(T) -> Result<R, RpcError>>(req: T, handler: F) -> (r:
    Result<R, RpcError>)
    requires
        outcome_of(req.spec_checks()) is Valid ==> handler.requires((req,)),
    ensures
        match outcome_of(req.spec_checks()) {
            OutcomeModel::Valid => handler.ensures((req,), r),
            OutcomeModel::Invalid(v) => r is Err && r->Err_0@ == validation_error(v),
        },
{
    match validation_outcome(&req) {
        ValidationOutcome::Invalid(violations) => Err(rejection(&violations)),
        ValidationOutcome::Valid => handler(req),
    }
}

} // verus!
