use crate::error::{BridgeError, ErrorKind, RegistryError};
use crate::value::ParamKind;
use vstd::prelude::*;
use vstd::string::StringExecFns;

verus! {

/// What a handler does when invoked with validated arguments.
#[derive(Debug)]
pub enum Behavior {
    /// Returns the given constant text; the built-in greeting handler.
    ConstText(String),
    /// Returns its single text argument unchanged.
    EchoText,
    /// Signals a handler failure carrying the given message.
    Fail(String),
}

/// Mathematical model of a `Behavior`.
pub enum BehaviorModel {
    ConstText(Seq<char>),
    EchoText,
    Fail(Seq<char>),
}

impl View for Behavior {
    type V = BehaviorModel;

    open spec fn view(&self) -> BehaviorModel {
        match self {
            Behavior::ConstText(t) => BehaviorModel::ConstText(t@),
            Behavior::EchoText => BehaviorModel::EchoText,
            Behavior::Fail(m) => BehaviorModel::Fail(m@),
        }
    }
}

/// A named command: its name, its declared parameter types, and its handler.
#[derive(Debug)]
pub struct Command {
    pub name: String,
    pub params: Vec<ParamKind>,
    pub behavior: Behavior,
}

/// Mathematical model of a `Command`.
pub struct CommandModel {
    pub name: Seq<char>,
    pub params: Seq<ParamKind>,
    pub behavior: BehaviorModel,
}

impl View for Command {
    type V = CommandModel;

    open spec fn view(&self) -> CommandModel {
        CommandModel { name: self.name@, params: self.params@, behavior: self.behavior@ }
    }
}

/// A command is well formed when its declared parameters agree with its
/// handler and a failing handler carries a non-empty message.
pub open spec fn command_wf(c: CommandModel) -> bool {
    match c.behavior {
        BehaviorModel::ConstText(_) => true,
        BehaviorModel::EchoText => c.params == seq![ParamKind::TextParam],
        BehaviorModel::Fail(m) => m.len() > 0,
    }
}

/// Whether some binding of `name` is present.
pub open spec fn contains_name(reg: Seq<CommandModel>, name: Seq<char>) -> bool {
    exists|i: int| 0 <= i < reg.len() && reg[i].name == name
}

/// The first binding of `name`, if any.
pub open spec fn spec_lookup(reg: Seq<CommandModel>, name: Seq<char>) -> Option<CommandModel>
    decreases reg.len(),
{
    if reg.len() == 0 {
        None
    } else if reg[0].name == name {
        Some(reg[0])
    } else {
        spec_lookup(reg.drop_first(), name)
    }
}

/// Lookup succeeds exactly on the names the registry contains.
pub proof fn lemma_lookup_contains(reg: Seq<CommandModel>, name: Seq<char>)
    ensures
        (spec_lookup(reg, name) is Some) <==> contains_name(reg, name),
    decreases reg.len(),
{
    if reg.len() > 0 && reg[0].name != name {
        lemma_lookup_contains(reg.drop_first(), name);
        if contains_name(reg, name) {
            let i = choose|i: int| 0 <= i < reg.len() && reg[i].name == name;
            assert(reg.drop_first()[i - 1] == reg[i]);
            assert(contains_name(reg.drop_first(), name));
        }
        if contains_name(reg.drop_first(), name) {
            let i = choose|i: int| 0 <= i < reg.drop_first().len() && reg.drop_first()[i].name
                == name;
            assert(reg[i + 1] == reg.drop_first()[i]);
            assert(contains_name(reg, name));
        }
    }
}

/// A registry's names are pairwise distinct and each command is well formed.
pub open spec fn registry_wf(reg: Seq<CommandModel>) -> bool {
    &&& forall|i: int, j: int|
        #![trigger reg[i], reg[j]]
        0 <= i < j < reg.len() ==> reg[i].name != reg[j].name
    &&& forall|i: int| 0 <= i < reg.len() ==> command_wf(#[trigger] reg[i])
}

/// The mutable handle of the build phase: commands are registered here, then
/// `build` hands the table over to the immutable serve-phase `Registry`.
pub struct RegistryBuilder {
    commands: Vec<Command>,
}

impl View for RegistryBuilder {
    type V = Seq<CommandModel>;

    closed spec fn view(&self) -> Seq<CommandModel> {
        self.commands@.map_values(|c: Command| c@)
    }
}

/// The immutable serve-phase command table: no mutating operation exists on
/// this type, so the registry cannot change once serving has begun.
pub struct Registry {
    commands: Vec<Command>,
}

impl View for Registry {
    type V = Seq<CommandModel>;

    closed spec fn view(&self) -> Seq<CommandModel> {
        self.commands@.map_values(|c: Command| c@)
    }
}

impl RegistryBuilder {
    pub open spec fn wf(&self) -> bool {
        registry_wf(self@)
    }

    /// An empty build-phase table.
    pub fn new() -> (r: RegistryBuilder)
        ensures
            r@ == Seq::<CommandModel>::empty(),
            r.wf(),
    {
        let r = RegistryBuilder { commands: Vec::new() };
        proof {
            assert(r@ =~= Seq::<CommandModel>::empty());
        }
        r
    }

    /// Whether `name` is already bound.
    pub fn is_bound(&self, name: &String) -> (r: bool)
        ensures
            r == contains_name(self@, name@),
    {
        let mut i: usize = 0;
        while i < self.commands.len()
            invariant
                i <= self.commands.len(),
                self@.len() == self.commands@.len(),
                forall|j: int| 0 <= j < i ==> self@[j].name != name@,
            decreases self.commands.len() - i,
        {
            let c: &Command = &self.commands[i];
            if c.name == *name {
                proof {
                    assert(self@[i as int].name == name@);
                }
                return true;
            }
            i += 1;
        }
        false
    }

    /// Binds `name` to a handler during the build phase. Fails with
    /// `DuplicateCommand` when the name is already bound; the table then
    /// retains only the first binding, unchanged.
    pub fn register(&mut self, c: Command) -> (r: Result<(), RegistryError>)
        requires
            old(self).wf(),
            command_wf(c@),
        ensures
            final(self).wf(),
            match r {
                Ok(()) => !contains_name(old(self)@, c@.name) && final(self)@ == old(self)@.push(
                    c@,
                ),
                Err(e) => {
                    &&& e == RegistryError::DuplicateCommand
                    &&& contains_name(old(self)@, c@.name)
                    &&& final(self)@ == old(self)@
                },
            },
    {
        if self.is_bound(&c.name) {
            Err(RegistryError::DuplicateCommand)
        } else {
            let ghost pre = self@;
            self.commands.push(c);
            proof {
                assert(self@ =~= pre.push(c@));
                assert forall|i: int, j: int| 0 <= i < j < self@.len() implies self@[i].name
                    != self@[j].name by {
                    if j < pre.len() {
                    } else {
                        assert(self@[j] == c@);
                        assert(pre[i].name != c@.name);
                    }
                }
            }
            Ok(())
        }
    }

    /// Ends the build phase: the table becomes the immutable serve-phase
    /// registry.
    pub fn build(self) -> (r: Registry)
        requires
            self.wf(),
        ensures
            r@ == self@,
            r.wf(),
    {
        Registry { commands: self.commands }
    }
}

impl Registry {
    pub open spec fn wf(&self) -> bool {
        registry_wf(self@)
    }

    /// Resolves a command name to its bound handler, or reports
    /// `UnknownCommand` exactly when no binding exists.
    pub fn resolve<'a>(&'a self, name: &String) -> (r: Result<&'a Command, BridgeError>)
        ensures
            match r {
                Ok(c) => spec_lookup(self@, name@) == Some(c@),
                Err(e) => {
                    &&& spec_lookup(self@, name@) is None
                    &&& e.kind == ErrorKind::UnknownCommand
                    &&& e@.message == "unknown command"@
                },
            },
    {
        let mut i: usize = 0;
        proof {
            assert(self@.skip(0) =~= self@);
        }
        while i < self.commands.len()
            invariant
                i <= self.commands.len(),
                self@.len() == self.commands@.len(),
                spec_lookup(self@, name@) == spec_lookup(self@.skip(i as int), name@),
            decreases self.commands.len() - i,
        {
            let c: &Command = &self.commands[i];
            if c.name == *name {
                proof {
                    assert(self@.skip(i as int)[0] == self@[i as int]);
                }
                return Ok(c);
            }
            proof {
                assert(self@.skip(i as int)[0] == self@[i as int]);
                assert(self@.skip(i as int).drop_first() =~= self@.skip(i as int + 1));
            }
            i += 1;
        }
        proof {
            assert(self@.skip(i as int).len() == 0);
        }
        Err(
            BridgeError {
                kind: ErrorKind::UnknownCommand,
                message: String::from_str("unknown command"),
            },
        )
    }
}

/// The greeting returned by the `hello_world` command.
pub fn hello_world() -> (r: String)
    ensures
        r@ == "Hello World!"@,
{
    String::from_str("Hello World!")
}

/// Model of the built-in command: `hello_world`, no parameters, constant
/// greeting.
pub open spec fn hello_world_model() -> CommandModel {
    CommandModel {
        name: "hello_world"@,
        params: Seq::empty(),
        behavior: BehaviorModel::ConstText("Hello World!"@),
    }
}

/// The built-in command, as registered by `hello_world_registry`.
pub fn hello_world_command() -> (r: Command)
    ensures
        r@ == hello_world_model(),
        command_wf(r@),
{
    let r = Command {
        name: String::from_str("hello_world"),
        params: Vec::new(),
        behavior: Behavior::ConstText(hello_world()),
    };
    proof {
        assert(r@.params =~= hello_world_model().params);
        assert(r@ == hello_world_model());
    }
    r
}

/// A registry holding exactly the `hello_world` command.
pub fn hello_world_registry() -> (r: Registry)
    ensures
        r.wf(),
        r@ == seq![hello_world_model()],
{
    let mut b = RegistryBuilder::new();
    let _bound = b.register(hello_world_command());
    proof {
        assert(b@ =~= seq![hello_world_model()]);
    }
    b.build()
}

} // verus!
