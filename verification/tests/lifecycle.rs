use command_bridge::dispatch::{Request, RequestEnvelope, Response};
use command_bridge::error::ErrorKind;
use command_bridge::registry::hello_world_registry;
use command_bridge::runtime::{Phase, Runtime};
use command_bridge::value::Value;

fn hello_request() -> Request {
    Request { name: "hello_world".to_string(), args: Vec::new() }
}

fn serving_runtime() -> Runtime {
    let mut runtime = Runtime::install(hello_world_registry());
    assert!(runtime.start(true).is_ok());
    runtime
}

#[test]
fn install_leaves_runtime_uninitialized() {
    let runtime = Runtime::install(hello_world_registry());
    assert_eq!(runtime.current_phase(), Phase::Uninitialized);
    assert_eq!(runtime.in_flight(), 0);
    assert!(runtime.dispatch_one(&hello_request()).is_none());
}

#[test]
fn successful_start_enters_serving() {
    let runtime = serving_runtime();
    assert_eq!(runtime.current_phase(), Phase::Serving);
    assert!(runtime.is_serving());
}

#[test]
fn startup_failure_is_fatal() {
    let mut runtime = Runtime::install(hello_world_registry());
    match runtime.start(false) {
        Ok(()) => panic!("start succeeded although the host failed"),
        Err(error) => {
            assert_eq!(error.kind, ErrorKind::StartupFailure);
            assert_eq!(error.message, "host runtime failed to initialize");
        }
    }
    assert_eq!(runtime.current_phase(), Phase::Terminated);
    assert!(runtime.dispatch_one(&hello_request()).is_none());
}

#[test]
fn serving_runtime_dispatches_hello() {
    let runtime = serving_runtime();
    match runtime.dispatch_one(&hello_request()) {
        Some(Response::Success(Value::Text(text))) => assert_eq!(text, "Hello World!"),
        other => panic!("expected a success response, got {:?}", other),
    }
}

#[test]
fn concurrent_hello_invocations_all_answered() {
    // Several invocations in flight at once: each is accepted before any
    // settles, all share the read-only registry, and every one receives its
    // own success response with the identical greeting.
    let mut runtime = serving_runtime();
    let count = 8;
    for _ in 0..count {
        assert!(runtime.accept());
    }
    assert_eq!(runtime.in_flight(), count);
    let mut responses = Vec::new();
    for _ in 0..count {
        responses.push(runtime.dispatch_one(&hello_request()));
    }
    assert_eq!(responses.len(), count);
    for response in responses {
        match response {
            Some(Response::Success(Value::Text(text))) => assert_eq!(text, "Hello World!"),
            other => panic!("a response was lost or wrong: {:?}", other),
        }
    }
    for _ in 0..count {
        runtime.settle();
    }
    assert_eq!(runtime.in_flight(), 0);
}

#[test]
fn responses_correlate_by_identifier() {
    // Concurrently issued enveloped requests: each response comes back under
    // the identifier of the request that produced it, whatever the order in
    // which the batch is answered.
    let mut runtime = serving_runtime();
    let ids = [31u64, 7, 1024, 0];
    let mut answers = Vec::new();
    for &id in &ids {
        assert!(runtime.accept());
        let envelope = RequestEnvelope { id, request: hello_request() };
        answers.push(runtime.answer(&envelope).expect("the runtime is serving"));
    }
    // Answer the batch in reverse of arrival: correlation still holds.
    answers.reverse();
    assert_eq!(answers.len(), ids.len());
    for answer in &answers {
        assert!(ids.contains(&answer.id));
        match &answer.response {
            Response::Success(Value::Text(text)) => assert_eq!(text, "Hello World!"),
            other => panic!("a response was lost or wrong: {:?}", other),
        }
    }
    for _ in &ids {
        runtime.settle();
    }
    assert_eq!(runtime.in_flight(), 0);
}

#[test]
fn handler_failure_leaves_runtime_serving() {
    let runtime = serving_runtime();
    let bad = Request { name: "hello_world".to_string(), args: vec![Value::Bool(true)] };
    match runtime.dispatch_one(&bad) {
        Some(Response::Failure(error)) => {
            assert_eq!(error.kind, ErrorKind::InvalidArguments);
        }
        other => panic!("expected a failure response, got {:?}", other),
    }
    assert!(runtime.is_serving());
    match runtime.dispatch_one(&hello_request()) {
        Some(Response::Success(Value::Text(text))) => assert_eq!(text, "Hello World!"),
        other => panic!("runtime stopped serving after a failure: {:?}", other),
    }
}

#[test]
fn shutdown_drains_then_terminates() {
    let mut runtime = serving_runtime();
    assert!(runtime.accept());
    assert!(runtime.accept());
    runtime.signal_shutdown();
    assert_eq!(runtime.current_phase(), Phase::ShuttingDown);
    // Not drained yet: termination is refused.
    assert!(!runtime.finish_shutdown());
    runtime.settle();
    runtime.settle();
    assert_eq!(runtime.in_flight(), 0);
    assert!(runtime.finish_shutdown());
    assert_eq!(runtime.current_phase(), Phase::Terminated);
}

#[test]
fn shutdown_may_abandon_pending_work() {
    let mut runtime = serving_runtime();
    assert!(runtime.accept());
    runtime.signal_shutdown();
    assert!(!runtime.finish_shutdown());
    runtime.abandon_pending();
    assert_eq!(runtime.in_flight(), 0);
    assert!(runtime.finish_shutdown());
    assert_eq!(runtime.current_phase(), Phase::Terminated);
}

#[test]
fn terminated_runtime_refuses_everything() {
    let mut runtime = serving_runtime();
    runtime.signal_shutdown();
    assert!(runtime.finish_shutdown());
    assert_eq!(runtime.current_phase(), Phase::Terminated);
    assert!(runtime.dispatch_one(&hello_request()).is_none());
    assert!(!runtime.accept());
    assert_eq!(runtime.in_flight(), 0);
    // No event leads out of the terminal phase.
    runtime.signal_shutdown();
    runtime.abandon_pending();
    assert!(runtime.finish_shutdown());
    assert_eq!(runtime.current_phase(), Phase::Terminated);
}

#[test]
fn shutting_down_runtime_accepts_no_new_requests() {
    let mut runtime = serving_runtime();
    runtime.signal_shutdown();
    assert!(!runtime.accept());
    assert!(runtime.dispatch_one(&hello_request()).is_none());
    assert!(!runtime.is_serving());
}
