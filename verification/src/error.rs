use vstd::prelude::*;

verus! {

/// The kinds of failure an invocation can produce, plus the fatal startup
/// class that aborts before serving ever begins.
#[derive(Clone, Copy, Debug, PartialEq, Eq, Structural)]
pub enum ErrorKind {
    /// The requested command name is not in the registry.
    UnknownCommand,
    /// Argument count or type mismatch against the declared signature.
    InvalidArguments,
    /// The invoked handler reported a failure during its own execution.
    HandlerError,
    /// The runtime could not initialize; serving never began.
    StartupFailure,
}

/// A build-phase registration failure.
#[derive(Clone, Copy, Debug, PartialEq, Eq, Structural)]
pub enum RegistryError {
    /// The command name is already bound.
    DuplicateCommand,
}

/// Mathematical model of an error descriptor: a kind and a message.
pub struct ErrorModel {
    pub kind: ErrorKind,
    pub message: Seq<char>,
}

/// An error descriptor as delivered in a response: a kind plus a
/// human-readable message.
#[derive(Debug)]
pub struct BridgeError {
    pub kind: ErrorKind,
    pub message: String,
}

impl View for BridgeError {
    type V = ErrorModel;

    open spec fn view(&self) -> ErrorModel {
        ErrorModel { kind: self.kind, message: self.message@ }
    }
}

} // verus!
