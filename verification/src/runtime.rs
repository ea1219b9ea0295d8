use crate::dispatch::{
    dispatch, dispatch_envelope, spec_answer, spec_dispatch, Request, RequestEnvelope, Response,
    ResponseEnvelope,
};
use crate::error::{BridgeError, ErrorKind};
use crate::registry::{registry_wf, CommandModel, Registry};
use vstd::prelude::*;
use vstd::string::StringExecFns;

verus! {

/// The lifecycle phase of the bridge runtime. The build phase — commands
/// being registered — precedes `Uninitialized`: a runtime only ever holds a
/// finished, immutable registry.
#[derive(Clone, Copy, Debug, PartialEq, Eq, Structural)]
pub enum Phase {
    /// The registry is installed but the host has not started serving.
    Uninitialized,
    /// Invocations are accepted and dispatched.
    Serving,
    /// The host signalled exit; in-flight work settles or is abandoned.
    ShuttingDown,
    /// Final: no further dispatch is possible, ever; a new process must be
    /// started to serve again.
    Terminated,
}

/// A lifecycle trigger from the host runtime, or the bookkeeping of one
/// in-flight invocation.
#[derive(Clone, Copy, Debug, PartialEq, Eq, Structural)]
pub enum Event {
    /// The host initialized and serving begins.
    HostStarted,
    /// The host could not initialize: fatal, serving never begins.
    HostStartFailed,
    /// One invocation arrived and was taken in flight.
    RequestAccepted,
    /// One in-flight invocation delivered its response.
    RequestSettled,
    /// The host signalled application exit.
    ShutdownSignalled,
    /// The in-flight work still pending during shutdown was abandoned.
    PendingAbandoned,
    /// No in-flight work remains; resources are released.
    DrainFinished,
}

/// Mathematical model of the runtime: its phase, the number of in-flight
/// invocations, and the installed registry.
pub struct RuntimeModel {
    pub phase: Phase,
    pub pending: nat,
    pub registry: Seq<CommandModel>,
}

/// The lifecycle transition relation: what each event does in each phase.
/// Events that do not apply to the current phase change nothing, and no
/// event ever changes the registry.
pub open spec fn spec_step(s: RuntimeModel, ev: Event) -> RuntimeModel {
    match ev {
        Event::HostStarted => if s.phase is Uninitialized {
            RuntimeModel { phase: Phase::Serving, ..s }
        } else {
            s
        },
        Event::HostStartFailed => if s.phase is Uninitialized {
            RuntimeModel { phase: Phase::Terminated, ..s }
        } else {
            s
        },
        Event::RequestAccepted => if s.phase is Serving {
            RuntimeModel { pending: s.pending + 1, ..s }
        } else {
            s
        },
        Event::RequestSettled => if (s.phase is Serving || s.phase is ShuttingDown) && s.pending
            > 0 {
            RuntimeModel { pending: (s.pending - 1) as nat, ..s }
        } else {
            s
        },
        Event::ShutdownSignalled => if s.phase is Serving {
            RuntimeModel { phase: Phase::ShuttingDown, ..s }
        } else {
            s
        },
        Event::PendingAbandoned => if s.phase is ShuttingDown {
            RuntimeModel { pending: 0, ..s }
        } else {
            s
        },
        Event::DrainFinished => if s.phase is ShuttingDown && s.pending == 0 {
            RuntimeModel { phase: Phase::Terminated, ..s }
        } else {
            s
        },
    }
}

/// Law: `Terminated` is absorbing — no event leads out of it — and no event
/// ever changes the installed registry.
pub proof fn lemma_terminated_final(s: RuntimeModel, ev: Event)
    ensures
        s.phase is Terminated ==> spec_step(s, ev) == s,
        spec_step(s, ev).registry == s.registry,
{
}

/// Law: during shutdown, draining finishes exactly when every in-flight
/// invocation has settled or been abandoned; abandoning leaves none behind.
pub proof fn lemma_clean_shutdown(s: RuntimeModel)
    requires
        s.phase is ShuttingDown,
    ensures
        (spec_step(s, Event::DrainFinished).phase is Terminated) <==> s.pending == 0,
        spec_step(s, Event::PendingAbandoned).pending == 0,
{
}

/// The bridge runtime: owns the immutable registry and walks the lifecycle
/// from installation through serving to termination.
pub struct Runtime {
    registry: Registry,
    phase: Phase,
    pending: usize,
}

impl View for Runtime {
    type V = RuntimeModel;

    closed spec fn view(&self) -> RuntimeModel {
        RuntimeModel {
            phase: self.phase,
            pending: self.pending as nat,
            registry: self.registry@,
        }
    }
}

impl Runtime {
    pub open spec fn wf(&self) -> bool {
        registry_wf(self@.registry)
    }

    /// Installs the finished registry; the runtime is not yet serving.
    pub fn install(registry: Registry) -> (r: Runtime)
        requires
            registry.wf(),
        ensures
            r@ == (RuntimeModel {
                phase: Phase::Uninitialized,
                pending: 0,
                registry: registry@,
            }),
            r.wf(),
    {
        Runtime { registry, phase: Phase::Uninitialized, pending: 0 }
    }

    /// The host reports its startup outcome. On success the runtime enters
    /// `Serving`; on failure startup is fatal — serving never begins and the
    /// reported error is the only outcome.
    pub fn start(&mut self, host_ready: bool) -> (r: Result<(), BridgeError>)
        requires
            old(self)@.phase is Uninitialized,
        ensures
            final(self)@ == spec_step(
                old(self)@,
                if host_ready {
                    Event::HostStarted
                } else {
                    Event::HostStartFailed
                },
            ),
            final(self).wf() == old(self).wf(),
            match r {
                Ok(()) => host_ready && final(self)@.phase is Serving,
                Err(e) => {
                    &&& !host_ready
                    &&& final(self)@.phase is Terminated
                    &&& e.kind == ErrorKind::StartupFailure
                    &&& e@.message == "host runtime failed to initialize"@
                },
            },
    {
        if host_ready {
            self.phase = Phase::Serving;
            Ok(())
        } else {
            self.phase = Phase::Terminated;
            Err(
                BridgeError {
                    kind: ErrorKind::StartupFailure,
                    message: String::from_str("host runtime failed to initialize"),
                },
            )
        }
    }

    /// Takes one arriving invocation in flight. Only a serving runtime
    /// accepts; any other phase — in particular `Terminated` — refuses.
    pub fn accept(&mut self) -> (r: bool)
        requires
            old(self)@.pending < usize::MAX,
        ensures
            final(self)@ == spec_step(old(self)@, Event::RequestAccepted),
            final(self).wf() == old(self).wf(),
            r == (old(self)@.phase is Serving),
    {
        if self.phase == Phase::Serving {
            self.pending = self.pending + 1;
            true
        } else {
            false
        }
    }

    /// Dispatches one accepted invocation against the shared registry. The
    /// runtime is untouched — concurrent dispatches share it read-only — and
    /// a response is produced exactly when the runtime is serving.
    pub fn dispatch_one(&self, req: &Request) -> (r: Option<Response>)
        requires
            self.wf(),
        ensures
            match r {
                Some(resp) => self@.phase is Serving && resp@ == spec_dispatch(
                    self@.registry,
                    req@,
                ),
                None => !(self@.phase is Serving),
            },
    {
        if self.phase == Phase::Serving {
            Some(dispatch(&self.registry, req))
        } else {
            None
        }
    }

    /// Dispatches one enveloped invocation against the shared registry,
    /// carrying the caller's correlation identifier through unchanged. As
    /// with `dispatch_one`, the runtime itself is untouched.
    pub fn answer(&self, env: &RequestEnvelope) -> (r: Option<ResponseEnvelope>)
        requires
            self.wf(),
        ensures
            match r {
                Some(resp) => self@.phase is Serving && resp@ == spec_answer(
                    self@.registry,
                    env@,
                ),
                None => !(self@.phase is Serving),
            },
    {
        if self.phase == Phase::Serving {
            Some(dispatch_envelope(&self.registry, env))
        } else {
            None
        }
    }

    /// Records that one in-flight invocation delivered its response.
    pub fn settle(&mut self)
        ensures
            final(self)@ == spec_step(old(self)@, Event::RequestSettled),
            final(self).wf() == old(self).wf(),
    {
        if (self.phase == Phase::Serving || self.phase == Phase::ShuttingDown) && self.pending
            > 0 {
            self.pending = self.pending - 1;
        }
    }

    /// The host signalled application exit: serving stops, shutdown begins.
    pub fn signal_shutdown(&mut self)
        ensures
            final(self)@ == spec_step(old(self)@, Event::ShutdownSignalled),
            final(self).wf() == old(self).wf(),
    {
        if self.phase == Phase::Serving {
            self.phase = Phase::ShuttingDown;
        }
    }

    /// Abandons whatever work is still in flight during shutdown.
    pub fn abandon_pending(&mut self)
        ensures
            final(self)@ == spec_step(old(self)@, Event::PendingAbandoned),
            final(self).wf() == old(self).wf(),
    {
        if self.phase == Phase::ShuttingDown {
            self.pending = 0;
        }
    }

    /// Completes shutdown once no work is in flight: the runtime terminates,
    /// for good. Returns whether termination was reached.
    pub fn finish_shutdown(&mut self) -> (r: bool)
        ensures
            final(self)@ == spec_step(old(self)@, Event::DrainFinished),
            final(self).wf() == old(self).wf(),
            r == (final(self)@.phase is Terminated),
    {
        if self.phase == Phase::ShuttingDown && self.pending == 0 {
            self.phase = Phase::Terminated;
        }
        self.phase == Phase::Terminated
    }

    /// The current lifecycle phase.
    pub fn current_phase(&self) -> (r: Phase)
        ensures
            r == self@.phase,
    {
        self.phase
    }

    /// Whether further invocations are accepted.
    pub fn is_serving(&self) -> (r: bool)
        ensures
            r == (self@.phase is Serving),
    {
        self.phase == Phase::Serving
    }

    /// The number of invocations currently in flight.
    pub fn in_flight(&self) -> (r: usize)
        ensures
            r as nat == self@.pending,
    {
        self.pending
    }
}

} // verus!
