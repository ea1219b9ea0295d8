use vstd::prelude::*;

verus! {

/// A raw argument or result value as it crosses the transport boundary.
#[derive(Debug)]
pub enum Value {
    Bool(bool),
    Int(i64),
    Text(String),
}

/// Mathematical model of a `Value`.
pub enum ValueModel {
    Bool(bool),
    Int(int),
    Text(Seq<char>),
}

impl View for Value {
    type V = ValueModel;

    open spec fn view(&self) -> ValueModel {
        match self {
            Value::Bool(b) => ValueModel::Bool(*b),
            Value::Int(i) => ValueModel::Int(*i as int),
            Value::Text(s) => ValueModel::Text(s@),
        }
    }
}

/// The models of a sequence of transported values, one for one.
pub open spec fn values_model(args: Seq<Value>) -> Seq<ValueModel> {
    args.map_values(|v: Value| v@)
}

/// The parameter types a command can declare.
#[derive(Clone, Copy, Debug, PartialEq, Eq, Structural)]
pub enum ParamKind {
    BoolParam,
    IntParam,
    TextParam,
}

/// Whether a transported value fits a declared parameter type.
pub open spec fn value_fits(v: ValueModel, k: ParamKind) -> bool {
    match k {
        ParamKind::BoolParam => v is Bool,
        ParamKind::IntParam => v is Int,
        ParamKind::TextParam => v is Text,
    }
}

impl Value {
    /// Type check of one argument against one declared parameter type.
    pub fn fits(&self, k: ParamKind) -> (r: bool)
        ensures
            r == value_fits(self@, k),
    {
        match (self, k) {
            (Value::Bool(_), ParamKind::BoolParam) => true,
            (Value::Int(_), ParamKind::IntParam) => true,
            (Value::Text(_), ParamKind::TextParam) => true,
            _ => false,
        }
    }

    /// An owned copy, equal to the original at the model level.
    pub fn duplicate(&self) -> (r: Value)
        ensures
            r@ == self@,
    {
        match self {
            Value::Bool(b) => Value::Bool(*b),
            Value::Int(i) => Value::Int(*i),
            Value::Text(s) => Value::Text(s.clone()),
        }
    }
}

} // verus!
