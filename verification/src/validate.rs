//! Validation of a call against the schema of its instruction.
//!
//! A call is held to the schema in two passes. The declared parameters are
//! taken in their order: each must be bound, to a value of its type. Then the
//! bindings of the call are taken in their order: each must bind a declared
//! parameter. The first failure is the one that is reported.

use crate::descriptor::{parameter_models, Descriptor, ParameterModel, ParameterSpec};
use crate::protocol::{CallModel, ErrorKind, InstructionCall};
use crate::text::{join, str_eq};
use crate::values::{value_of, Binding};
use vstd::prelude::*;
use vstd::string::*;

verus! {

/// Whether `supplied` binds `parameter` to a value of its type.
pub open spec fn met(parameter: ParameterModel, supplied: Seq<Binding>) -> bool {
    match value_of(supplied, parameter.id) {
        Some(value) => value.kind() == parameter.kind,
        None => false,
    }
}

/// Whether `schema` declares a parameter called `name`.
pub open spec fn declared(schema: Seq<ParameterModel>, name: Seq<char>) -> bool {
    exists|i: int| 0 <= i < schema.len() && (#[trigger] schema[i]).id == name
}

/// Whether the `at`-th parameter of `schema` is one that `supplied` fails.
pub open spec fn unmet_at(schema: Seq<ParameterModel>, supplied: Seq<Binding>, at: int) -> bool {
    0 <= at < schema.len() && !met(schema[at], supplied)
}

/// Whether the `at`-th parameter of `schema` is the first that `supplied`
/// fails.
pub open spec fn first_unmet_at(schema: Seq<ParameterModel>, supplied: Seq<Binding>, at: int) -> bool {
    unmet_at(schema, supplied, at) && forall|k: int|
        0 <= k < at ==> !#[trigger] unmet_at(schema, supplied, k)
}

/// The first parameter of `schema` that `supplied` fails, if it fails one.
pub open spec fn first_unmet(schema: Seq<ParameterModel>, supplied: Seq<Binding>) -> Option<int> {
    if exists|at: int| first_unmet_at(schema, supplied, at) {
        Some(choose|at: int| first_unmet_at(schema, supplied, at))
    } else {
        None
    }
}

/// Whether the `at`-th binding of `supplied` names nothing that `schema`
/// declares.
pub open spec fn undeclared_at(schema: Seq<ParameterModel>, supplied: Seq<Binding>, at: int) -> bool {
    0 <= at < supplied.len() && !declared(schema, supplied[at].name)
}

/// Whether the `at`-th binding of `supplied` is the first that names nothing
/// that `schema` declares.
pub open spec fn first_undeclared_at(
    schema: Seq<ParameterModel>,
    supplied: Seq<Binding>,
    at: int,
) -> bool {
    undeclared_at(schema, supplied, at) && forall|k: int|
        0 <= k < at ==> !#[trigger] undeclared_at(schema, supplied, k)
}

/// The first binding of `supplied` that names nothing that `schema` declares,
/// if there is one.
pub open spec fn first_undeclared(schema: Seq<ParameterModel>, supplied: Seq<Binding>) -> Option<
    int,
> {
    if exists|at: int| first_undeclared_at(schema, supplied, at) {
        Some(choose|at: int| first_undeclared_at(schema, supplied, at))
    } else {
        None
    }
}

/// What is reported of a parameter that a call lacks.
pub open spec fn missing_reason(parameter: Seq<char>, instruction: Seq<char>) -> Seq<char> {
    "Missing parameter "@ + parameter + " from call to "@ + instruction
}

/// What is reported of a parameter whose value has the wrong type.
pub open spec fn wrong_type_reason(parameter: Seq<char>, instruction: Seq<char>) -> Seq<char> {
    "Invalid kind of parameter "@ + parameter + " from call to "@ + instruction
}

/// What is reported of a parameter that the instruction does not declare.
pub open spec fn unknown_reason(parameter: Seq<char>, instruction: Seq<char>) -> Seq<char> {
    "Unknown parameter "@ + parameter + " in call to "@ + instruction
}

/// What is wrong with `call` under `schema`: nothing, or the kind of the
/// first failure and what is reported of it.
pub open spec fn violation(schema: Seq<ParameterModel>, call: CallModel) -> Option<
    (ErrorKind, Seq<char>),
> {
    match first_unmet(schema, call.parameters) {
        Some(at) => if value_of(call.parameters, schema[at].id) is None {
            Some((ErrorKind::MissingParameter, missing_reason(schema[at].id, call.instruction)))
        } else {
            Some(
                (
                    ErrorKind::InvalidParameterType,
                    wrong_type_reason(schema[at].id, call.instruction),
                ),
            )
        },
        None => match first_undeclared(schema, call.parameters) {
            Some(at) => Some(
                (
                    ErrorKind::UnknownParameter,
                    unknown_reason(call.parameters[at].name, call.instruction),
                ),
            ),
            None => None,
        },
    }
}

/// A call that `schema` accepts binds every declared parameter to a value of
/// its type, and binds nothing else.
pub proof fn lemma_accepted_call(schema: Seq<ParameterModel>, call: CallModel)
    requires
        violation(schema, call) is None,
    ensures
        forall|i: int| 0 <= i < schema.len() ==> met(#[trigger] schema[i], call.parameters),
        forall|j: int|
            0 <= j < call.parameters.len() ==> declared(
                schema,
                (#[trigger] call.parameters[j]).name,
            ),
{
    assert forall|i: int| 0 <= i < schema.len() implies met(
        #[trigger] schema[i],
        call.parameters,
    ) by {
        if !met(schema[i], call.parameters) {
            lemma_some_first_unmet(schema, call.parameters, i);
        }
    }
    assert forall|j: int| 0 <= j < call.parameters.len() implies declared(
        schema,
        (#[trigger] call.parameters[j]).name,
    ) by {
        if !declared(schema, call.parameters[j].name) {
            lemma_some_first_undeclared(schema, call.parameters, j);
        }
    }
}

/// Where some parameter is failed, one is the first to be failed.
proof fn lemma_some_first_unmet(schema: Seq<ParameterModel>, supplied: Seq<Binding>, at: int)
    requires
        unmet_at(schema, supplied, at),
    ensures
        first_unmet(schema, supplied) is Some,
    decreases at,
{
    if exists|k: int| 0 <= k < at && unmet_at(schema, supplied, k) {
        let k = choose|k: int| 0 <= k < at && unmet_at(schema, supplied, k);
        lemma_some_first_unmet(schema, supplied, k);
    } else {
        assert(first_unmet_at(schema, supplied, at));
    }
}

/// Where some binding is undeclared, one is the first to be undeclared.
proof fn lemma_some_first_undeclared(schema: Seq<ParameterModel>, supplied: Seq<Binding>, at: int)
    requires
        undeclared_at(schema, supplied, at),
    ensures
        first_undeclared(schema, supplied) is Some,
    decreases at,
{
    if exists|k: int| 0 <= k < at && undeclared_at(schema, supplied, k) {
        let k = choose|k: int| 0 <= k < at && undeclared_at(schema, supplied, k);
        lemma_some_first_undeclared(schema, supplied, k);
    } else {
        assert(first_undeclared_at(schema, supplied, at));
    }
}

/// The first failed parameter is the only one that is first.
proof fn lemma_first_unmet_is(schema: Seq<ParameterModel>, supplied: Seq<Binding>, at: int)
    requires
        first_unmet_at(schema, supplied, at),
    ensures
        first_unmet(schema, supplied) == Some(at),
{
    let chosen = choose|c: int| first_unmet_at(schema, supplied, c);
    if chosen < at {
        assert(!unmet_at(schema, supplied, chosen));
    } else if at < chosen {
        assert(!unmet_at(schema, supplied, at));
    }
}

/// The first undeclared binding is the only one that is first.
proof fn lemma_first_undeclared_is(schema: Seq<ParameterModel>, supplied: Seq<Binding>, at: int)
    requires
        first_undeclared_at(schema, supplied, at),
    ensures
        first_undeclared(schema, supplied) == Some(at),
{
    let chosen = choose|c: int| first_undeclared_at(schema, supplied, c);
    if chosen < at {
        assert(!undeclared_at(schema, supplied, chosen));
    } else if at < chosen {
        assert(!undeclared_at(schema, supplied, at));
    }
}

/// `head`, then `parameter`, then `middle`, then `instruction`.
fn reason(head: &str, parameter: &str, middle: &str, instruction: &str) -> (text: String)
    ensures
        text@ == head@ + parameter@ + middle@ + instruction@,
{
    let mut text = join(head, parameter);
    text.append(middle);
    text.append(instruction);
    text
}

/// Whether `schema` declares a parameter called `name`.
pub fn declares_parameter(schema: &Vec<ParameterSpec>, name: &str) -> (found: bool)
    ensures
        found == declared(parameter_models(schema@), name@),
{
    let mut at: usize = 0;
    while at < schema.len()
        invariant
            at <= schema@.len(),
            forall|k: int| 0 <= k < at ==> (#[trigger] parameter_models(schema@)[k]).id != name@,
        decreases schema@.len() - at,
    {
        if str_eq(schema[at].id.as_str(), name) {
            assert(parameter_models(schema@)[at as int].id == name@);
            return true;
        }
        at += 1;
    }
    false
}

/// Holds `call` to the schema of `descriptor`.
///
/// Succeeds exactly where the call binds every declared parameter to a value
/// of its type and binds nothing else; otherwise gives the kind of the first
/// failure and what is reported of it.
pub fn validate(descriptor: &Descriptor, call: &InstructionCall) -> (outcome: Result<
    (),
    (ErrorKind, String),
>)
    ensures
        match outcome {
            Ok(()) => violation(descriptor@.parameters, call@) is None,
            Err((kind, reason)) => violation(descriptor@.parameters, call@) == Some((kind, reason@)),
        },
{
    let schema = descriptor.parameters();
    let supplied = &call.parameters;
    let ghost declared_schema = parameter_models(schema@);
    let mut at: usize = 0;
    while at < schema.len()
        invariant
            at <= schema@.len(),
            declared_schema == parameter_models(schema@),
            declared_schema == descriptor@.parameters,
            supplied@ == call@.parameters,
            forall|k: int| 0 <= k < at ==> !#[trigger] unmet_at(declared_schema, supplied@, k),
        decreases schema@.len() - at,
    {
        let parameter = &schema[at];
        assert(declared_schema[at as int] == parameter@);
        match supplied.get(parameter.id.as_str()) {
            None => {
                proof {
                    lemma_first_unmet_is(declared_schema, supplied@, at as int);
                }
                return Err(
                    (
                        ErrorKind::MissingParameter,
                        reason(
                            "Missing parameter ",
                            parameter.id.as_str(),
                            " from call to ",
                            call.instruction.as_str(),
                        ),
                    ),
                );
            },
            Some(value) => {
                if value.kind() != parameter.kind {
                    proof {
                        lemma_first_unmet_is(declared_schema, supplied@, at as int);
                    }
                    return Err(
                        (
                            ErrorKind::InvalidParameterType,
                            reason(
                                "Invalid kind of parameter ",
                                parameter.id.as_str(),
                                " from call to ",
                                call.instruction.as_str(),
                            ),
                        ),
                    );
                }
            },
        }
        at += 1;
    }
    assert(first_unmet(declared_schema, supplied@) is None) by {
        if exists|c: int| first_unmet_at(declared_schema, supplied@, c) {
            let c = choose|c: int| first_unmet_at(declared_schema, supplied@, c);
            assert(!unmet_at(declared_schema, supplied@, c));
        }
    }
    let count = supplied.len();
    let mut at: usize = 0;
    while at < count
        invariant
            at <= count,
            count == supplied@.len(),
            declared_schema == parameter_models(schema@),
            declared_schema == descriptor@.parameters,
            supplied@ == call@.parameters,
            first_unmet(declared_schema, supplied@) is None,
            forall|k: int| 0 <= k < at ==> !#[trigger] undeclared_at(declared_schema, supplied@, k),
        decreases count - at,
    {
        let name = supplied.name_at(at);
        if !declares_parameter(schema, name) {
            proof {
                lemma_first_undeclared_is(declared_schema, supplied@, at as int);
            }
            return Err(
                (
                    ErrorKind::UnknownParameter,
                    reason("Unknown parameter ", name, " in call to ", call.instruction.as_str()),
                ),
            );
        }
        at += 1;
    }
    assert(first_undeclared(declared_schema, supplied@) is None) by {
        if exists|c: int| first_undeclared_at(declared_schema, supplied@, c) {
            let c = choose|c: int| first_undeclared_at(declared_schema, supplied@, c);
            assert(!undeclared_at(declared_schema, supplied@, c));
        }
    }
    Ok(())
}

} // verus!
