use crate::decimal::{decimal_string, spec_decimal};
use crate::error::{BridgeError, ErrorKind, ErrorModel};
use crate::registry::{
    command_wf, contains_name, hello_world_model, lemma_lookup_contains, registry_wf,
    spec_lookup, Behavior, BehaviorModel, Command, CommandModel, Registry,
};
use crate::value::{value_fits, values_model, ParamKind, Value, ValueModel};
use vstd::prelude::*;
use vstd::string::StringExecFns;

verus! {

/// An invocation request: the target command name and its ordered arguments,
/// created per call and owned by one dispatch for its duration.
#[derive(Debug)]
pub struct Request {
    pub name: String,
    pub args: Vec<Value>,
}

/// Mathematical model of a `Request`.
pub struct RequestModel {
    pub name: Seq<char>,
    pub args: Seq<ValueModel>,
}

impl View for Request {
    type V = RequestModel;

    open spec fn view(&self) -> RequestModel {
        RequestModel { name: self.name@, args: values_model(self.args@) }
    }
}

/// An invocation response: exactly one of a success value or an error
/// descriptor is populated.
#[derive(Debug)]
pub enum Response {
    Success(Value),
    Failure(BridgeError),
}

/// Mathematical model of a `Response`.
pub enum ResponseModel {
    Success(ValueModel),
    Failure(ErrorModel),
}

impl View for Response {
    type V = ResponseModel;

    open spec fn view(&self) -> ResponseModel {
        match self {
            Response::Success(v) => ResponseModel::Success(v@),
            Response::Failure(e) => ResponseModel::Failure(e@),
        }
    }
}

/// Every argument fits its declared parameter type, one for one.
pub open spec fn args_ok(params: Seq<ParamKind>, args: Seq<ValueModel>) -> bool {
    &&& params.len() == args.len()
    &&& forall|i: int| 0 <= i < params.len() ==> value_fits(#[trigger] args[i], params[i])
}

/// The first argument position whose value does not fit its declared type.
pub open spec fn first_mismatch(params: Seq<ParamKind>, args: Seq<ValueModel>) -> int
    decreases params.len(),
{
    if params.len() == 0 {
        0
    } else if !value_fits(args[0], params[0]) {
        0
    } else {
        1 + first_mismatch(params.drop_first(), args.drop_first())
    }
}

/// The message of an `InvalidArguments` response: which argument failed and
/// why.
pub open spec fn invalid_args_message(params: Seq<ParamKind>, args: Seq<ValueModel>) -> Seq<
    char,
> {
    if params.len() != args.len() {
        "wrong number of arguments"@
    } else {
        "argument "@ + spec_decimal(first_mismatch(params, args) as nat) + " has the wrong type"@
    }
}

/// What the bound handler produces from validated arguments: a success value,
/// or the message of a failure it signals.
pub open spec fn spec_run(b: BehaviorModel, args: Seq<ValueModel>) -> Result<
    ValueModel,
    Seq<char>,
> {
    match b {
        BehaviorModel::ConstText(t) => Ok(ValueModel::Text(t)),
        BehaviorModel::EchoText => Ok(args[0]),
        BehaviorModel::Fail(m) => Err(m),
    }
}

/// The one response that dispatching `req` against `reg` produces: resolve
/// the name, validate the arguments, execute the handler — and report the
/// first failure of those steps as the response's error.
pub open spec fn spec_dispatch(reg: Seq<CommandModel>, req: RequestModel) -> ResponseModel {
    match spec_lookup(reg, req.name) {
        Option::None => ResponseModel::Failure(
            ErrorModel { kind: ErrorKind::UnknownCommand, message: "unknown command"@ },
        ),
        Option::Some(c) => if !args_ok(c.params, req.args) {
            ResponseModel::Failure(
                ErrorModel {
                    kind: ErrorKind::InvalidArguments,
                    message: invalid_args_message(c.params, req.args),
                },
            )
        } else {
            match spec_run(c.behavior, req.args) {
                Ok(v) => ResponseModel::Success(v),
                Err(m) => ResponseModel::Failure(
                    ErrorModel { kind: ErrorKind::HandlerError, message: m },
                ),
            }
        },
    }
}

/// A found binding is an element of the registry.
pub proof fn lemma_lookup_in_registry(reg: Seq<CommandModel>, name: Seq<char>)
    requires
        spec_lookup(reg, name) is Some,
    ensures
        exists|i: int| 0 <= i < reg.len() && Some(#[trigger] reg[i]) == spec_lookup(reg, name),
    decreases reg.len(),
{
    if reg.len() > 0 && reg[0].name != name {
        lemma_lookup_in_registry(reg.drop_first(), name);
        let i = choose|i: int|
            0 <= i < reg.drop_first().len() && Some(#[trigger] reg.drop_first()[i])
                == spec_lookup(reg.drop_first(), name);
        assert(reg[i + 1] == reg.drop_first()[i]);
    }
}

/// The first mismatching position is the one found by a left-to-right scan.
proof fn lemma_first_mismatch(params: Seq<ParamKind>, args: Seq<ValueModel>, i: int)
    requires
        params.len() == args.len(),
        0 <= i < params.len(),
        forall|j: int| 0 <= j < i ==> value_fits(#[trigger] args[j], params[j]),
        !value_fits(args[i], params[i]),
    ensures
        first_mismatch(params, args) == i,
    decreases i,
{
    if i > 0 {
        assert(value_fits(args[0], params[0]));
        assert forall|j: int| 0 <= j < i - 1 implies value_fits(
            #[trigger] args.drop_first()[j],
            params.drop_first()[j],
        ) by {
            assert(args.drop_first()[j] == args[j + 1]);
            assert(params.drop_first()[j] == params[j + 1]);
        }
        assert(args.drop_first()[i - 1] == args[i]);
        assert(params.drop_first()[i - 1] == params[i]);
        lemma_first_mismatch(params.drop_first(), args.drop_first(), i - 1);
    }
}

/// Validates the arguments against the declared parameter types; on a
/// mismatch reports which argument failed and why.
fn check_args(params: &Vec<ParamKind>, args: &Vec<Value>) -> (r: Option<String>)
    ensures
        match r {
            Option::None => args_ok(params@, values_model(args@)),
            Option::Some(m) => {
                &&& !args_ok(params@, values_model(args@))
                &&& m@ == invalid_args_message(params@, values_model(args@))
            },
        },
{
    if params.len() != args.len() {
        return Some(String::from_str("wrong number of arguments"));
    }
    let mut i: usize = 0;
    while i < params.len()
        invariant
            i <= params.len(),
            params@.len() == args@.len(),
            forall|j: int| 0 <= j < i ==> value_fits(#[trigger] values_model(args@)[j], params@[j]),
        decreases params.len() - i,
    {
        let arg: &Value = &args[i];
        if !arg.fits(params[i]) {
            let mut m = String::from_str("argument ");
            let digits = decimal_string(i);
            m.append(digits.as_str());
            m.append(" has the wrong type");
            proof {
                lemma_first_mismatch(params@, values_model(args@), i as int);
                assert(m@ =~= invalid_args_message(params@, values_model(args@)));
            }
            return Some(m);
        }
        i += 1;
    }
    None
}

/// Executes the bound handler on validated arguments.
fn run_behavior(b: &Behavior, args: &Vec<Value>) -> (r: Result<Value, String>)
    requires
        b@ is EchoText ==> args@.len() >= 1,
    ensures
        match r {
            Ok(v) => spec_run(b@, values_model(args@)) == Ok::<ValueModel, Seq<char>>(v@),
            Err(m) => spec_run(b@, values_model(args@)) == Err::<ValueModel, Seq<char>>(m@),
        },
{
    match b {
        Behavior::ConstText(t) => Ok(Value::Text(t.clone())),
        Behavior::EchoText => {
            let arg: &Value = &args[0];
            Ok(arg.duplicate())
        },
        Behavior::Fail(m) => Err(m.clone()),
    }
}

/// Dispatches one invocation: resolves the command, validates the arguments,
/// executes the handler, and always produces exactly one response — a
/// failing handler is contained in the response, never fatal.
pub fn dispatch(reg: &Registry, req: &Request) -> (r: Response)
    requires
        reg.wf(),
    ensures
        r@ == spec_dispatch(reg@, req@),
{
    let cmd: &Command = match reg.resolve(&req.name) {
        Err(e) => { return Response::Failure(e); },
        Ok(c) => c,
    };
    proof {
        lemma_lookup_in_registry(reg@, req.name@);
        let i = choose|i: int|
            0 <= i < reg@.len() && Some(#[trigger] reg@[i]) == spec_lookup(reg@, req.name@);
        assert(command_wf(reg@[i]));
    }
    match check_args(&cmd.params, &req.args) {
        Some(m) => Response::Failure(
            BridgeError { kind: ErrorKind::InvalidArguments, message: m },
        ),
        None => match run_behavior(&cmd.behavior, &req.args) {
            Ok(v) => Response::Success(v),
            Err(m) => Response::Failure(
                BridgeError { kind: ErrorKind::HandlerError, message: m },
            ),
        },
    }
}

/// A request as it crosses the transport boundary: the host-assigned
/// correlation identifier is carried end-to-end, so the caller can match
/// each response to its own request under concurrent invocation.
#[derive(Debug)]
pub struct RequestEnvelope {
    pub id: u64,
    pub request: Request,
}

impl View for RequestEnvelope {
    type V = (int, RequestModel);

    open spec fn view(&self) -> (int, RequestModel) {
        (self.id as int, self.request@)
    }
}

/// A response on its way back to the caller, under the identifier of the
/// request that produced it.
#[derive(Debug)]
pub struct ResponseEnvelope {
    pub id: u64,
    pub response: Response,
}

impl View for ResponseEnvelope {
    type V = (int, ResponseModel);

    open spec fn view(&self) -> (int, ResponseModel) {
        (self.id as int, self.response@)
    }
}

/// The answer owed to one enveloped request: the dispatch outcome under the
/// request's own identifier.
pub open spec fn spec_answer(reg: Seq<CommandModel>, req: (int, RequestModel)) -> (
    int,
    ResponseModel,
) {
    (req.0, spec_dispatch(reg, req.1))
}

/// Dispatches one enveloped invocation, carrying the correlation identifier
/// through unchanged.
pub fn dispatch_envelope(reg: &Registry, env: &RequestEnvelope) -> (r: ResponseEnvelope)
    requires
        reg.wf(),
    ensures
        r@ == spec_answer(reg@, env@),
{
    let response = dispatch(reg, &env.request);
    ResponseEnvelope { id: env.id, response }
}

/// The answers owed to a batch of concurrently issued enveloped requests.
pub open spec fn spec_answers(reg: Seq<CommandModel>, reqs: Seq<(int, RequestModel)>) -> Seq<
    (int, ResponseModel),
> {
    reqs.map_values(|req: (int, RequestModel)| spec_answer(reg, req))
}

/// Law: when the identifiers of a batch of concurrent requests are distinct,
/// every request receives exactly one response under its own identifier —
/// none lost, none duplicated — and correlation does not depend on the order
/// in which responses come back.
pub proof fn lemma_answers_correlate(reg: Seq<CommandModel>, reqs: Seq<(int, RequestModel)>)
    requires
        forall|i: int, j: int|
            0 <= i < j < reqs.len() ==> (#[trigger] reqs[i]).0 != (#[trigger] reqs[j]).0,
    ensures
        spec_answers(reg, reqs).len() == reqs.len(),
        forall|i: int|
            0 <= i < reqs.len() ==> #[trigger] spec_answers(reg, reqs)[i] == (
                reqs[i].0,
                spec_dispatch(reg, reqs[i].1),
            ),
        forall|i: int, j: int|
            0 <= i < reqs.len() && 0 <= j < reqs.len() && #[trigger] spec_answers(reg, reqs)[i].0
                == #[trigger] spec_answers(reg, reqs)[j].0 ==> i == j,
{
    assert forall|i: int, j: int|
        0 <= i < reqs.len() && 0 <= j < reqs.len() && #[trigger] spec_answers(reg, reqs)[i].0
            == #[trigger] spec_answers(reg, reqs)[j].0 implies i == j by {
        if i < j {
            assert(reqs[i].0 != reqs[j].0);
        }
        if j < i {
            assert(reqs[j].0 != reqs[i].0);
        }
    }
}

/// Law: a registered name always resolves; an unregistered one never does.
pub proof fn lemma_registered_resolves(reg: Seq<CommandModel>, name: Seq<char>)
    ensures
        (spec_lookup(reg, name) is Some) <==> contains_name(reg, name),
{
    lemma_lookup_contains(reg, name);
}

/// Law: for any unregistered name, dispatch answers `UnknownCommand`; no
/// handler is consulted.
pub proof fn lemma_unknown_command(reg: Seq<CommandModel>, req: RequestModel)
    requires
        !contains_name(reg, req.name),
    ensures
        spec_dispatch(reg, req) == ResponseModel::Failure(
            ErrorModel { kind: ErrorKind::UnknownCommand, message: "unknown command"@ },
        ),
{
    lemma_lookup_contains(reg, req.name);
}

/// Law: dispatching `hello_world` with zero arguments against a registry
/// that binds it to the built-in greeting handler succeeds with exactly the literal
/// greeting.
pub proof fn lemma_hello_world_dispatch(reg: Seq<CommandModel>, req: RequestModel)
    requires
        spec_lookup(reg, "hello_world"@) == Some(hello_world_model()),
        req.name == "hello_world"@,
        req.args.len() == 0,
    ensures
        spec_dispatch(reg, req) == ResponseModel::Success(ValueModel::Text("Hello World!"@)),
{
    assert(args_ok(hello_world_model().params, req.args));
}

/// Law: supplying arguments to a command that declares none yields
/// `InvalidArguments`; the handler is not executed.
pub proof fn lemma_extra_arguments_rejected(reg: Seq<CommandModel>, req: RequestModel)
    requires
        spec_lookup(reg, req.name) matches Some(c) && c.params.len() == 0,
        req.args.len() > 0,
    ensures
        spec_dispatch(reg, req) == ResponseModel::Failure(
            ErrorModel {
                kind: ErrorKind::InvalidArguments,
                message: "wrong number of arguments"@,
            },
        ),
{
}

/// Law: a handler that signals failure is answered by a `HandlerError`
/// response carrying its non-empty message — contained in the response,
/// never fatal.
pub proof fn lemma_handler_failure_reported(reg: Seq<CommandModel>, req: RequestModel)
    requires
        registry_wf(reg),
        spec_lookup(reg, req.name) matches Some(c) && c.behavior is Fail && args_ok(
            c.params,
            req.args,
        ),
    ensures
        spec_dispatch(reg, req) matches ResponseModel::Failure(e) && e.kind
            == ErrorKind::HandlerError && e.message.len() > 0,
{
    lemma_lookup_in_registry(reg, req.name);
    let i = choose|i: int|
        0 <= i < reg.len() && Some(#[trigger] reg[i]) == spec_lookup(reg, req.name);
    assert(command_wf(reg[i]));
}

/// The responses to a batch of requests issued concurrently: the registry is
/// shared read-only, so each response is determined by its own request alone.
pub open spec fn spec_responses(reg: Seq<CommandModel>, reqs: Seq<RequestModel>) -> Seq<
    ResponseModel,
> {
    reqs.map_values(|req: RequestModel| spec_dispatch(reg, req))
}

/// Law: N concurrent invocations of `hello_world` yield exactly N success
/// responses, each carrying the identical greeting, whatever the completion
/// order — none lost, none duplicated.
pub proof fn lemma_concurrent_hello_world(reg: Seq<CommandModel>, reqs: Seq<RequestModel>)
    requires
        spec_lookup(reg, "hello_world"@) == Some(hello_world_model()),
        forall|i: int|
            0 <= i < reqs.len() ==> (#[trigger] reqs[i]).name == "hello_world"@
                && reqs[i].args.len() == 0,
    ensures
        spec_responses(reg, reqs).len() == reqs.len(),
        forall|i: int|
            0 <= i < reqs.len() ==> spec_responses(reg, reqs)[i] == ResponseModel::Success(
                ValueModel::Text("Hello World!"@),
            ),
{
    assert forall|i: int| 0 <= i < reqs.len() implies spec_responses(reg, reqs)[i]
        == ResponseModel::Success(ValueModel::Text("Hello World!"@)) by {
        lemma_hello_world_dispatch(reg, reqs[i]);
    }
}

} // verus!
