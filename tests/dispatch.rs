use std::cell::Cell;

use greeter_server::greeter::{HelloReply, HelloRequest, MyFarewell, MyGreeter};
use greeter_server::status::{rejection, validate, Code, RpcError};
use greeter_server::constraint::Violation;
use prost::Message;
use proto_types::protovalidate::Violations;
use proto_types::Status as GrpcStatus;

fn decode_details(details: &[u8]) -> (GrpcStatus, Violations) {
    let status = GrpcStatus::decode(details).expect("details decode");
    assert_eq!(status.details.len(), 1);
    assert_eq!(status.details[0].type_url, "type.googleapis.com/buf.validate.Violations");
    let violations = Violations::decode(&status.details[0].value[..]).expect("violations decode");
    (status, violations)
}

#[test]
fn empty_name_is_rejected_with_details() {
    let err = MyGreeter.say_hello(HelloRequest { name: String::new() }).unwrap_err();
    assert_eq!(err.code, Code::InvalidArgument);
    assert_eq!(err.message, "Validation Error");
    let (status, violations) = decode_details(&err.details);
    assert_eq!(status.code, 3);
    assert_eq!(status.message, "name must not be empty");
    assert_eq!(violations.violations.len(), 1);
    let v = &violations.violations[0];
    assert_eq!(v.field_path_str(), Some("name".to_string()));
    assert_eq!(v.rule_id(), "required");
    assert_eq!(v.message(), "name must not be empty");
}

#[test]
fn valid_name_is_greeted() {
    let reply = MyGreeter.say_hello(HelloRequest { name: "Ada".to_string() }).unwrap();
    assert_eq!(reply, HelloReply { message: "Hello, Ada!".to_string() });
}

#[test]
fn farewell_is_validated_too() {
    let reply = MyFarewell.say_good_bye(HelloRequest { name: "Bob".to_string() }).unwrap();
    assert_eq!(reply.message, "Goodbye, Bob!");
    let err = MyFarewell.say_good_bye(HelloRequest { name: String::new() }).unwrap_err();
    assert_eq!(err.code, Code::InvalidArgument);
    assert_eq!(err.message, "Validation Error");
}

#[test]
fn handler_not_called_on_invalid_request() {
    let calls = Cell::new(0u32);
    let r = validate(HelloRequest { name: String::new() }, |req: HelloRequest| {
        calls.set(calls.get() + 1);
        Ok::<String, RpcError>(req.name)
    });
    assert!(r.is_err());
    assert_eq!(calls.get(), 0);
}

#[test]
fn handler_called_once_on_valid_request() {
    let calls = Cell::new(0u32);
    let r = validate(HelloRequest { name: "Ada".to_string() }, |req: HelloRequest| {
        calls.set(calls.get() + 1);
        Ok::<String, RpcError>(req.name)
    });
    assert_eq!(r, Ok("Ada".to_string()));
    assert_eq!(calls.get(), 1);
}

#[test]
fn handler_error_passes_through_unchanged() {
    let own = RpcError { code: Code::NotFound, message: "no such user".to_string(), details: vec![1, 2, 3] };
    let expected = own.clone();
    let r = validate(HelloRequest { name: "Ada".to_string() }, move |_req: HelloRequest| {
        Err::<HelloReply, RpcError>(own)
    });
    assert_eq!(r, Err(expected));
}

#[test]
fn rejection_lists_every_violation() {
    let vs = vec![
        Violation { field_path: "name".to_string(), constraint_id: "required".to_string(), message: "a".to_string() },
        Violation { field_path: "title".to_string(), constraint_id: "string.max_len".to_string(), message: "b".to_string() },
    ];
    let err = rejection(&vs);
    assert_eq!(err.code, Code::InvalidArgument);
    assert_eq!(err.message, "Validation Error");
    assert!(!err.details.is_empty());
    let (status, violations) = decode_details(&err.details);
    assert_eq!(status.message, "Validation Error");
    let got: Vec<(Option<String>, String, String)> = violations
        .violations
        .iter()
        .map(|v| (v.field_path_str(), v.rule_id().to_string(), v.message().to_string()))
        .collect();
    assert_eq!(
        got,
        vec![
            (Some("name".to_string()), "required".to_string(), "a".to_string()),
            (Some("title".to_string()), "string.max_len".to_string(), "b".to_string()),
        ]
    );
}

#[test]
fn concurrent_calls_are_independent() {
    let rt = tokio::runtime::Builder::new_multi_thread().worker_threads(2).build().unwrap();
    let (valid, invalid) = rt.block_on(async {
        let a = tokio::spawn(async { MyGreeter.say_hello(HelloRequest { name: "Ada".to_string() }) });
        let b = tokio::spawn(async { MyGreeter.say_hello(HelloRequest { name: String::new() }) });
        (a.await.unwrap(), b.await.unwrap())
    });
    assert_eq!(valid.unwrap().message, "Hello, Ada!");
    let err = invalid.unwrap_err();
    assert_eq!(err.code, Code::InvalidArgument);
    let (_, violations) = decode_details(&err.details);
    assert_eq!(violations.violations.len(), 1);
    assert_eq!(violations.violations[0].rule_id(), "required");
}
