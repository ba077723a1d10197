//! Requests, responses and the kinds of error that a response can carry.

use crate::descriptor::{Descriptor, DescriptorModel};
use crate::evidence::{evidence_models, Evidence, EvidenceModel};
use crate::registry::descriptor_models;
use crate::values::{Binding, ValueMap};
use vstd::prelude::*;

verus! {

/// The kinds of error.
#[derive(Clone, Copy, Debug, PartialEq, Eq, Hash, Structural)]
pub enum ErrorKind {
    /// The request could not be read. The engine never sees such a request.
    FailedToParseIPCJson,
    /// No instruction has the identifier that a call names.
    InvalidInstruction,
    /// A call lacks a parameter that its instruction declares.
    MissingParameter,
    /// A call gives a parameter a value of the wrong type.
    InvalidParameterType,
    /// A call gives a parameter that its instruction does not declare.
    UnknownParameter,
    /// Connecting, resolving or the operation itself failed.
    EngineProcessingError,
}

/// One call of an instruction, as the contracts speak of it.
pub struct CallModel {
    pub instruction: Seq<char>,
    pub parameters: Seq<Binding>,
}

/// One call of an instruction: its identifier and the values of its
/// parameters.
#[derive(Debug)]
pub struct InstructionCall {
    pub instruction: String,
    pub parameters: ValueMap,
}

/// What a caller can ask of the engine.
#[derive(Debug)]
pub enum Request {
    /// Discard the session.
    ResetState,
    /// List the instructions that are offered.
    Instructions,
    /// Run the calls in order.
    RunInstructions { instructions: Vec<InstructionCall> },
}

/// What the engine answers.
#[derive(Debug)]
pub enum Response {
    /// The session was discarded.
    StateReset,
    /// The instructions that are offered.
    Instructions { friendly_name: String, instructions: Vec<Descriptor> },
    /// What each call gave, in the order of the calls.
    ExecutionOutput { output: Vec<ValueMap>, evidence: Vec<Vec<Evidence>> },
    /// The one error that ended the request.
    Error { kind: ErrorKind, reason: String },
}

/// A request, as the contracts speak of it.
pub enum RequestModel {
    ResetState,
    Instructions,
    RunInstructions { instructions: Seq<CallModel> },
}

/// A response, as the contracts speak of it.
pub enum ResponseModel {
    StateReset,
    Instructions { friendly_name: Seq<char>, instructions: Seq<DescriptorModel> },
    ExecutionOutput { output: Seq<Seq<Binding>>, evidence: Seq<Seq<EvidenceModel>> },
    Error { kind: ErrorKind, reason: Seq<char> },
}

impl View for InstructionCall {
    type V = CallModel;

    open spec fn view(&self) -> CallModel {
        CallModel { instruction: self.instruction@, parameters: self.parameters@ }
    }
}

/// The calls of `calls`, as the contracts speak of them.
pub open spec fn call_models(calls: Seq<InstructionCall>) -> Seq<CallModel> {
    Seq::new(calls.len(), |i: int| calls[i]@)
}

/// The mappings of `maps`, as the contracts speak of them.
pub open spec fn map_models(maps: Seq<ValueMap>) -> Seq<Seq<Binding>> {
    Seq::new(maps.len(), |i: int| maps[i]@)
}

/// The evidence of each call in `lists`, as the contracts speak of it.
pub open spec fn evidence_lists(lists: Seq<Vec<Evidence>>) -> Seq<Seq<EvidenceModel>> {
    Seq::new(lists.len(), |i: int| evidence_models(lists[i]@))
}

impl View for Request {
    type V = RequestModel;

    open spec fn view(&self) -> RequestModel {
        match self {
            Request::ResetState => RequestModel::ResetState,
            Request::Instructions => RequestModel::Instructions,
            Request::RunInstructions { instructions } => RequestModel::RunInstructions {
                instructions: call_models(instructions@),
            },
        }
    }
}

impl View for Response {
    type V = ResponseModel;

    open spec fn view(&self) -> ResponseModel {
        match self {
            Response::StateReset => ResponseModel::StateReset,
            Response::Instructions { friendly_name, instructions } => ResponseModel::Instructions {
                friendly_name: friendly_name@,
                instructions: descriptor_models(instructions@),
            },
            Response::ExecutionOutput { output, evidence } => ResponseModel::ExecutionOutput {
                output: map_models(output@),
                evidence: evidence_lists(evidence@),
            },
            Response::Error { kind, reason } => ResponseModel::Error {
                kind: *kind,
                reason: reason@,
            },
        }
    }
}

impl InstructionCall {
    /// A call of the instruction called `instruction`, with no parameters yet.
    pub fn new(instruction: String) -> (call: InstructionCall)
        ensures
            call@ == (CallModel { instruction: instruction@, parameters: Seq::empty() }),
    {
        InstructionCall { instruction, parameters: ValueMap::new() }
    }
}

} // verus!
