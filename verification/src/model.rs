//! What the engine does, stated over plain values.
//!
//! The engine and the driver take turns. The engine decides what is to be done
//! next and asks the driver for one thing at a time: to open the application,
//! to enter its session, to find an object, or to carry out a leaf operation.
//! The driver answers, and the engine decides again. Each function of this
//! module is one such decision: it takes the state of a batch and the driver's
//! answer, and gives the next request or the response that ends the batch.

use crate::capability::{declares, ComponentModel, Grant};
use crate::catalog::{main_window, target_parameter, LeafStep, Operation, TargetSource};
use crate::codec::unreadable_reason;
use crate::descriptor::ParameterModel;
use crate::evidence::{base64_standard, encodable, Content, EvidenceModel};
use crate::protocol::{CallModel, ErrorKind, RequestModel, ResponseModel};
use crate::registry::{catalogue, listed};
use crate::session::{
    no_connection_reason,
    no_session_reason,
    not_initialised_reason,
    resolution,
    root_after_connect,
    ReportedModel,
};
use crate::validate::violation;
use crate::values::{bind, flag_of, number_of, text_of, Binding, Value};
use vstd::prelude::*;

verus! {

/// An engine between two requests: what it offers and what it is connected to.
pub struct EngineModel {
    pub registry: Seq<Operation>,
    pub root: Option<ComponentModel>,
}

/// A batch in progress.
pub struct BatchModel {
    pub registry: Seq<Operation>,
    pub root: Option<ComponentModel>,
    /// The calls of the batch, in the order in which they were submitted.
    pub calls: Seq<CallModel>,
    /// How many calls are completed. The next one is the call in progress.
    pub position: nat,
    /// What each completed call gave.
    pub output: Seq<Seq<Binding>>,
    /// What each completed call left as evidence.
    pub evidence: Seq<Seq<EvidenceModel>>,
}

/// A leaf operation that the driver is asked to carry out.
pub struct LeafCallModel {
    pub operation: Operation,
    /// The object to act on, narrowed to the capability that the operation
    /// needs.
    pub target: Grant,
    /// The parameters of the call.
    pub arguments: Seq<Binding>,
}

/// What the driver answers to a leaf operation.
pub enum LeafOutcomeModel {
    /// A step of the operation failed; `detail` holds the driver's own words.
    Failed { step: LeafStep, detail: Seq<char> },
    /// The operation was carried out and gave `values`.
    Returned { values: Seq<Value> },
    /// The operation was carried out and captured an image.
    Captured { png: Seq<u8> },
}

/// Where a request stands: what the driver is to do next, or the response.
pub enum ProgressModel {
    /// The driver is to reach the application and report its first child.
    Connect(BatchModel),
    /// The driver is to report the first child of the connection.
    OpenSession(BatchModel),
    /// The driver is to find the object at the address.
    Resolve(BatchModel, Seq<char>),
    /// The driver is to carry out the leaf operation.
    Invoke(BatchModel, LeafCallModel),
    /// The request is answered.
    Finished(EngineModel, ResponseModel),
}

/// The name under which the engine presents itself.
pub open spec fn friendly_name() -> Seq<char> {
    "SAP"@
}

/// What is reported of a call that names no instruction of the registry.
pub open spec fn unknown_instruction_reason(id: Seq<char>) -> Seq<char> {
    "The requested instruction "@ + id + " could not be handled by this engine."@
}

/// What is reported where a key code does not fit sixteen bits.
pub open spec fn key_range_reason() -> Seq<char> {
    "out of range integral type conversion attempted"@
}

/// What is reported where the driver's answer does not fit the instruction.
pub open spec fn misfit_reason() -> Seq<char> {
    "The result of the operation does not fit the instruction."@
}

/// What is reported, after the prefix of the failed step, where an image is
/// too long to be encoded.
pub open spec fn too_long_detail() -> Seq<char> {
    "the image is too long to encode"@
}

/// The label of the evidence that a transaction leaves.
pub open spec fn transaction_label() -> Seq<char> {
    "SAP Transaction"@
}

/// The text of the evidence that running the transaction `code` leaves.
pub open spec fn transaction_text(code: Seq<char>) -> Seq<char> {
    "Ran transaction '"@ + code + "'."@
}

/// Whether `number` fits sixteen bits, as a key code must.
pub open spec fn fits_key(number: i32) -> bool {
    -32768 <= number <= 32767
}

/// The engine that a batch leaves behind.
pub open spec fn engine_of(batch: BatchModel) -> EngineModel {
    EngineModel { registry: batch.registry, root: batch.root }
}

/// The batch that an engine starts for `calls`.
pub open spec fn batch_of(engine: EngineModel, calls: Seq<CallModel>) -> BatchModel {
    BatchModel {
        registry: engine.registry,
        root: engine.root,
        calls,
        position: 0,
        output: Seq::empty(),
        evidence: Seq::empty(),
    }
}

/// The call in progress.
pub open spec fn current_call(batch: BatchModel) -> CallModel {
    batch.calls[batch.position as int]
}

/// The operation of the call in progress, where the registry lists it.
pub open spec fn current_operation(batch: BatchModel) -> Option<Operation> {
    listed(batch.registry, current_call(batch).instruction)
}

/// The address at which `operation` finds its target in `call`.
pub open spec fn target_address(operation: Operation, call: CallModel) -> Seq<char> {
    match operation.spec_target() {
        TargetSource::MainWindow => main_window(),
        _ => text_of(call.parameters, target_parameter()),
    }
}

/// `batch`, ended by the one error of the given kind. What was accumulated is
/// not returned; the session stays as it is.
pub open spec fn fail(batch: BatchModel, kind: ErrorKind, reason: Seq<char>) -> ProgressModel {
    ProgressModel::Finished(engine_of(batch), ResponseModel::Error { kind, reason })
}

/// `batch`, ended with what every call gave.
pub open spec fn finish(batch: BatchModel) -> ProgressModel {
    ProgressModel::Finished(
        engine_of(batch),
        ResponseModel::ExecutionOutput { output: batch.output, evidence: batch.evidence },
    )
}

/// `batch` with the call in progress completed.
pub open spec fn advance(
    batch: BatchModel,
    output: Seq<Binding>,
    evidence: Seq<EvidenceModel>,
) -> BatchModel {
    BatchModel {
        position: batch.position + 1,
        output: batch.output.push(output),
        evidence: batch.evidence.push(evidence),
        ..batch
    }
}

/// `batch` connected to `root`.
pub open spec fn connected(batch: BatchModel, root: ComponentModel) -> BatchModel {
    BatchModel { root: Some(root), ..batch }
}

/// What the engine answers to `request`, or asks of the driver first.
pub open spec fn begin(engine: EngineModel, request: RequestModel) -> ProgressModel {
    match request {
        RequestModel::ResetState => ProgressModel::Finished(
            EngineModel { registry: engine.registry, root: None },
            ResponseModel::StateReset,
        ),
        RequestModel::Instructions => ProgressModel::Finished(
            engine,
            ResponseModel::Instructions {
                friendly_name: friendly_name(),
                instructions: catalogue(engine.registry),
            },
        ),
        RequestModel::RunInstructions { instructions } => next_call(batch_of(engine, instructions)),
    }
}

/// What the engine answers to what came over the wire: to a request as
/// `begin` says, and to what could not be read with the error that says so,
/// staying as it was.
pub open spec fn receive(
    engine: EngineModel,
    decoded: Result<RequestModel, Seq<char>>,
) -> ProgressModel {
    match decoded {
        Ok(request) => begin(engine, request),
        Err(detail) => ProgressModel::Finished(
            engine,
            ResponseModel::Error {
                kind: ErrorKind::FailedToParseIPCJson,
                reason: unreadable_reason(detail),
            },
        ),
    }
}

/// Takes up the call in progress: looks it up, validates it, and connects
/// first where the session is not connected. Ends the batch where no call is
/// left.
pub open spec fn next_call(batch: BatchModel) -> ProgressModel
    decreases batch.calls.len() - batch.position, 2int,
{
    if batch.position >= batch.calls.len() {
        finish(batch)
    } else {
        match current_operation(batch) {
            None => fail(
                batch,
                ErrorKind::InvalidInstruction,
                unknown_instruction_reason(current_call(batch).instruction),
            ),
            Some(operation) => match violation(operation.spec_parameters(), current_call(batch)) {
                Some((kind, reason)) => fail(batch, kind, reason),
                None => if batch.root is None {
                    ProgressModel::Connect(batch)
                } else {
                    engage(batch, operation)
                },
            },
        }
    }
}

/// Carries on with a validated call on a connected session: finds out where
/// the target is.
pub open spec fn engage(batch: BatchModel, operation: Operation) -> ProgressModel
    decreases batch.calls.len() - batch.position, 1int,
{
    match batch.root {
        None => fail(batch, ErrorKind::EngineProcessingError, not_initialised_reason()),
        Some(root) => match operation.spec_target() {
            TargetSource::Nothing => complete(batch, Seq::empty(), Seq::empty()),
            TargetSource::Root => act_on(batch, operation, root),
            _ => ProgressModel::Resolve(batch, target_address(operation, current_call(batch))),
        },
    }
}

/// Completes the call in progress and takes up the next one.
pub open spec fn complete(
    batch: BatchModel,
    output: Seq<Binding>,
    evidence: Seq<EvidenceModel>,
) -> ProgressModel
    decreases batch.calls.len() - batch.position, 0int,
{
    if batch.position >= batch.calls.len() {
        finish(batch)
    } else {
        next_call(advance(batch, output, evidence))
    }
}

/// Narrows `target` to the capability that `operation` needs and asks the
/// driver to carry the operation out. Fails where the kind of the target does
/// not declare the capability, and where a key code does not fit.
pub open spec fn act_on(
    batch: BatchModel,
    operation: Operation,
    target: ComponentModel,
) -> ProgressModel {
    match operation.spec_capability() {
        Some(capability) => if !declares(target.kind, capability) {
            fail(batch, ErrorKind::EngineProcessingError, operation.spec_unsupported())
        } else if operation is SendKey && !fits_key(number_of(current_call(batch).parameters, "key"@)) {
            fail(batch, ErrorKind::EngineProcessingError, key_range_reason())
        } else {
            ProgressModel::Invoke(
                batch,
                LeafCallModel {
                    operation,
                    target: Grant { address: target.address, kind: target.kind, capability },
                    arguments: current_call(batch).parameters,
                },
            )
        },
        None => fail(batch, ErrorKind::EngineProcessingError, operation.spec_unsupported()),
    }
}

/// Carries on after the driver tried to reach the application.
pub open spec fn after_connect(
    batch: BatchModel,
    found: Result<ReportedModel, Seq<char>>,
) -> ProgressModel {
    match found {
        Err(reason) => fail(batch, ErrorKind::EngineProcessingError, reason),
        Ok(reported) => if reported.kind() is GuiConnection {
            ProgressModel::OpenSession(batch)
        } else {
            fail(batch, ErrorKind::EngineProcessingError, no_connection_reason())
        },
    }
}

/// Carries on after the driver tried to enter the session.
pub open spec fn after_open_session(
    batch: BatchModel,
    found: Result<(Seq<char>, ReportedModel), Seq<char>>,
) -> ProgressModel {
    match found {
        Err(reason) => fail(batch, ErrorKind::EngineProcessingError, reason),
        Ok((address, reported)) => match root_after_connect(batch.root, address, reported) {
            None => fail(batch, ErrorKind::EngineProcessingError, no_session_reason()),
            Some(root) => match current_operation(batch) {
                None => fail(
                    connected(batch, root),
                    ErrorKind::InvalidInstruction,
                    unknown_instruction_reason(current_call(batch).instruction),
                ),
                Some(operation) => engage(connected(batch, root), operation),
            },
        },
    }
}

/// The one output of an instruction that gives `value` under `name`.
pub open spec fn single_output(name: Seq<char>, value: Value) -> Seq<Binding> {
    bind(Seq::empty(), name, value)
}

/// Carries on after the driver looked for the target of the call in progress.
pub open spec fn after_resolve(batch: BatchModel, found: Option<ReportedModel>) -> ProgressModel {
    match current_operation(batch) {
        None => fail(
            batch,
            ErrorKind::InvalidInstruction,
            unknown_instruction_reason(current_call(batch).instruction),
        ),
        Some(operation) => {
            let address = target_address(operation, current_call(batch));
            let resolved = resolution(batch.root, address, found);
            if operation is DoesElementExist {
                complete(
                    batch,
                    single_output("exists"@, Value::Boolean(resolved is Some)),
                    Seq::empty(),
                )
            } else {
                match resolved {
                    None => fail(
                        batch,
                        ErrorKind::EngineProcessingError,
                        operation.spec_not_found(address),
                    ),
                    Some(component) => if operation is ComponentType {
                        complete(
                            batch,
                            single_output("type"@, Value::String(found->0.reported_type)),
                            Seq::empty(),
                        )
                    } else {
                        act_on(batch, operation, component)
                    },
                }
            }
        },
    }
}

/// Whether `values` are what `schema` promises: as many, each of its type.
pub open spec fn fits(schema: Seq<ParameterModel>, values: Seq<Value>) -> bool {
    &&& values.len() == schema.len()
    &&& forall|i: int| 0 <= i < schema.len() ==> (#[trigger] values[i]).kind() == schema[i].kind
}

/// The first `count` of `values`, each bound to the name that `schema` gives
/// to its place.
pub open spec fn named_values(
    schema: Seq<ParameterModel>,
    values: Seq<Value>,
    count: nat,
) -> Seq<Binding>
    decreases count,
{
    if count == 0 {
        Seq::empty()
    } else {
        bind(
            named_values(schema, values, (count - 1) as nat),
            schema[count - 1].id,
            values[count - 1],
        )
    }
}

/// The evidence that a completed leaf operation leaves by itself.
pub open spec fn evidence_of(operation: Operation, call: CallModel) -> Seq<EvidenceModel> {
    if operation is RunTransaction {
        Seq::empty().push(
            EvidenceModel {
                label: transaction_label(),
                content: Content::Textual(transaction_text(text_of(call.parameters, "tcode"@))),
            },
        )
    } else {
        Seq::empty()
    }
}

/// Carries on after the driver tried to carry out the leaf operation of the
/// call in progress.
pub open spec fn after_leaf(batch: BatchModel, outcome: LeafOutcomeModel) -> ProgressModel {
    match current_operation(batch) {
        None => fail(
            batch,
            ErrorKind::InvalidInstruction,
            unknown_instruction_reason(current_call(batch).instruction),
        ),
        Some(operation) => {
            let call = current_call(batch);
            match outcome {
                LeafOutcomeModel::Failed { step, detail } => fail(
                    batch,
                    ErrorKind::EngineProcessingError,
                    operation.spec_failure_prefix(step, flag_of(call.parameters, "double"@)) + detail,
                ),
                LeafOutcomeModel::Returned { values } => if !(operation is Screenshot) && fits(
                    operation.spec_outputs(),
                    values,
                ) {
                    complete(
                        batch,
                        named_values(operation.spec_outputs(), values, values.len()),
                        evidence_of(operation, call),
                    )
                } else {
                    fail(batch, ErrorKind::EngineProcessingError, misfit_reason())
                },
                LeafOutcomeModel::Captured { png } => if !(operation is Screenshot) {
                    fail(batch, ErrorKind::EngineProcessingError, misfit_reason())
                } else if !encodable(png.len()) {
                    fail(
                        batch,
                        ErrorKind::EngineProcessingError,
                        operation.spec_failure_prefix(LeafStep::Second, false) + too_long_detail(),
                    )
                } else {
                    complete(
                        batch,
                        Seq::empty(),
                        Seq::empty().push(
                            EvidenceModel {
                                label: text_of(call.parameters, "label"@),
                                content: Content::ImageAsPngBase64(base64_standard(png)),
                            },
                        ),
                    )
                },
            }
        },
    }
}

} // verus!
