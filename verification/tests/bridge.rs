use command_bridge::dispatch::{dispatch, Request, Response};
use command_bridge::error::{ErrorKind, RegistryError};
use command_bridge::registry::{
    hello_world, hello_world_command, hello_world_registry, Behavior, Command, Registry,
    RegistryBuilder,
};
use command_bridge::value::{ParamKind, Value};

fn echo_command() -> Command {
    Command {
        name: "echo".to_string(),
        params: vec![ParamKind::TextParam],
        behavior: Behavior::EchoText,
    }
}

fn failing_command(message: &str) -> Command {
    Command {
        name: "always_fails".to_string(),
        params: Vec::new(),
        behavior: Behavior::Fail(message.to_string()),
    }
}

fn three_command_registry() -> Registry {
    let mut builder = RegistryBuilder::new();
    assert!(builder.register(hello_world_command()).is_ok());
    assert!(builder.register(echo_command()).is_ok());
    assert!(builder.register(failing_command("disk on fire")).is_ok());
    builder.build()
}

#[test]
fn resolve_returns_bound_handler() {
    let registry = three_command_registry();
    let resolved = registry.resolve(&"echo".to_string());
    match resolved {
        Ok(command) => {
            assert_eq!(command.name, "echo");
            assert!(matches!(command.behavior, Behavior::EchoText));
        }
        Err(_) => panic!("registered name did not resolve"),
    }
}

#[test]
fn resolve_reports_unknown_name() {
    let registry = three_command_registry();
    match registry.resolve(&"missing".to_string()) {
        Ok(_) => panic!("unregistered name resolved"),
        Err(error) => {
            assert_eq!(error.kind, ErrorKind::UnknownCommand);
            assert_eq!(error.message, "unknown command");
        }
    }
}

#[test]
fn duplicate_registration_rejected() {
    let mut builder = RegistryBuilder::new();
    assert!(builder.register(hello_world_command()).is_ok());
    let second = Command {
        name: "hello_world".to_string(),
        params: Vec::new(),
        behavior: Behavior::ConstText("something else".to_string()),
    };
    assert_eq!(builder.register(second), Err(RegistryError::DuplicateCommand));
    // The first binding is retained: dispatch still yields the greeting.
    let registry = builder.build();
    let request = Request { name: "hello_world".to_string(), args: Vec::new() };
    match dispatch(&registry, &request) {
        Response::Success(Value::Text(text)) => assert_eq!(text, "Hello World!"),
        other => panic!("expected the first binding's greeting, got {:?}", other),
    }
}

#[test]
fn hello_world_returns_greeting() {
    assert_eq!(hello_world(), "Hello World!");
}

#[test]
fn hello_world_dispatch_succeeds() {
    let registry = hello_world_registry();
    let request = Request { name: "hello_world".to_string(), args: Vec::new() };
    match dispatch(&registry, &request) {
        Response::Success(Value::Text(text)) => assert_eq!(text, "Hello World!"),
        other => panic!("expected a success response, got {:?}", other),
    }
}

#[test]
fn hello_world_rejects_arguments() {
    let registry = hello_world_registry();
    let request = Request {
        name: "hello_world".to_string(),
        args: vec![Value::Text("unexpected".to_string())],
    };
    match dispatch(&registry, &request) {
        Response::Failure(error) => {
            assert_eq!(error.kind, ErrorKind::InvalidArguments);
            assert_eq!(error.message, "wrong number of arguments");
        }
        other => panic!("expected InvalidArguments, got {:?}", other),
    }
}

#[test]
fn unknown_command_dispatch_reported() {
    let registry = hello_world_registry();
    let request = Request { name: "open_window".to_string(), args: Vec::new() };
    match dispatch(&registry, &request) {
        Response::Failure(error) => {
            assert_eq!(error.kind, ErrorKind::UnknownCommand);
            assert_eq!(error.message, "unknown command");
        }
        other => panic!("expected UnknownCommand, got {:?}", other),
    }
}

#[test]
fn echo_returns_its_argument() {
    let registry = three_command_registry();
    let request = Request {
        name: "echo".to_string(),
        args: vec![Value::Text("ping".to_string())],
    };
    match dispatch(&registry, &request) {
        Response::Success(Value::Text(text)) => assert_eq!(text, "ping"),
        other => panic!("expected the argument back, got {:?}", other),
    }
}

#[test]
fn echo_rejects_wrongly_typed_argument() {
    let registry = three_command_registry();
    let request = Request { name: "echo".to_string(), args: vec![Value::Int(3)] };
    match dispatch(&registry, &request) {
        Response::Failure(error) => {
            assert_eq!(error.kind, ErrorKind::InvalidArguments);
            assert_eq!(error.message, "argument 0 has the wrong type");
        }
        other => panic!("expected InvalidArguments, got {:?}", other),
    }
}

#[test]
fn mismatch_message_names_the_failing_position() {
    let mut builder = RegistryBuilder::new();
    let wide = Command {
        name: "wide".to_string(),
        params: vec![ParamKind::TextParam, ParamKind::IntParam, ParamKind::BoolParam],
        behavior: Behavior::ConstText("ok".to_string()),
    };
    assert!(builder.register(wide).is_ok());
    let registry = builder.build();
    let request = Request {
        name: "wide".to_string(),
        args: vec![
            Value::Text("fine".to_string()),
            Value::Int(12),
            Value::Text("not a bool".to_string()),
        ],
    };
    match dispatch(&registry, &request) {
        Response::Failure(error) => {
            assert_eq!(error.kind, ErrorKind::InvalidArguments);
            assert_eq!(error.message, "argument 2 has the wrong type");
        }
        other => panic!("expected InvalidArguments, got {:?}", other),
    }
}

#[test]
fn failing_handler_yields_handler_error() {
    let registry = three_command_registry();
    let request = Request { name: "always_fails".to_string(), args: Vec::new() };
    match dispatch(&registry, &request) {
        Response::Failure(error) => {
            assert_eq!(error.kind, ErrorKind::HandlerError);
            assert_eq!(error.message, "disk on fire");
            assert!(!error.message.is_empty());
        }
        other => panic!("expected HandlerError, got {:?}", other),
    }
}

#[test]
fn is_bound_follows_registration() {
    let mut builder = RegistryBuilder::new();
    assert!(!builder.is_bound(&"hello_world".to_string()));
    assert!(builder.register(hello_world_command()).is_ok());
    assert!(builder.is_bound(&"hello_world".to_string()));
    assert!(!builder.is_bound(&"echo".to_string()));
}

#[test]
fn value_fits_declared_kinds() {
    assert!(Value::Bool(true).fits(ParamKind::BoolParam));
    assert!(Value::Int(-4).fits(ParamKind::IntParam));
    assert!(Value::Text("x".to_string()).fits(ParamKind::TextParam));
    assert!(!Value::Bool(true).fits(ParamKind::IntParam));
    assert!(!Value::Int(0).fits(ParamKind::TextParam));
    assert!(!Value::Text("x".to_string()).fits(ParamKind::BoolParam));
}
