//! What holds of every batch, whatever the driver answers.

use crate::capability::{declares, ComponentModel};
use crate::catalog::{LeafStep, Operation, TargetSource};
use crate::descriptor::ParameterModel;
use crate::evidence::{base64_standard, encodable, Content, EvidenceModel};
use crate::model::{
    act_on,
    advance,
    after_connect,
    after_leaf,
    after_open_session,
    after_resolve,
    batch_of,
    begin,
    complete,
    connected,
    current_call,
    current_operation,
    engage,
    engine_of,
    evidence_of,
    fail,
    fits,
    fits_key,
    friendly_name,
    key_range_reason,
    misfit_reason,
    named_values,
    next_call,
    receive,
    single_output,
    target_address,
    too_long_detail,
    unknown_instruction_reason,
    BatchModel,
    EngineModel,
    LeafOutcomeModel,
    ProgressModel,
};
use crate::protocol::{CallModel, ErrorKind, RequestModel, ResponseModel};
use crate::registry::{catalogue, listed};
use crate::session::{
    no_connection_reason,
    no_session_reason,
    not_initialised_reason,
    resolution,
    root_after_connect,
    session_root,
    ReportedModel,
};
use crate::validate::{first_unmet, first_unmet_at, unmet_at, violation};
use crate::values::{binds, bound_at, flag_of, number_of, place_of, text_of, Binding, Value};
use vstd::prelude::*;

verus! {

/// What the driver answers to a question of the engine.
pub enum AnswerModel {
    /// To `Connect`: the first child of the application, or why there is none.
    Opened(Result<ReportedModel, Seq<char>>),
    /// To `OpenSession`: the first child of the connection, or why there is
    /// none.
    Entered(Result<(Seq<char>, ReportedModel), Seq<char>>),
    /// To `Resolve`: what is at the address, if anything is.
    Resolved(Option<ReportedModel>),
    /// To `Invoke`: how the leaf operation went.
    Completed(LeafOutcomeModel),
}

/// Where a request stands after the driver gave `answer`. An answer to a
/// question that was not asked changes nothing.
pub open spec fn answered(progress: ProgressModel, answer: AnswerModel) -> ProgressModel {
    match (progress, answer) {
        (ProgressModel::Connect(batch), AnswerModel::Opened(found)) => after_connect(batch, found),
        (ProgressModel::OpenSession(batch), AnswerModel::Entered(found)) => after_open_session(
            batch,
            found,
        ),
        (ProgressModel::Resolve(batch, _), AnswerModel::Resolved(found)) => after_resolve(
            batch,
            found,
        ),
        (ProgressModel::Invoke(batch, _), AnswerModel::Completed(outcome)) => after_leaf(
            batch,
            outcome,
        ),
        _ => progress,
    }
}

/// Where a request stands after the driver gave `answers`, one after the
/// other.
pub open spec fn run(progress: ProgressModel, answers: Seq<AnswerModel>) -> ProgressModel
    decreases answers.len(),
{
    if answers.len() == 0 {
        progress
    } else {
        answered(run(progress, answers.drop_last()), answers.last())
    }
}

/// Whether `batch` holds one output and one list of evidence for each
/// completed call, and no more calls are completed than were submitted.
pub open spec fn aligned(batch: BatchModel) -> bool {
    &&& batch.position <= batch.calls.len()
    &&& batch.output.len() == batch.position
    &&& batch.evidence.len() == batch.position
}

/// Whether `call` names an instruction of `registry` and meets its schema.
pub open spec fn valid_call(registry: Seq<Operation>, call: CallModel) -> bool {
    listed(registry, call.instruction) matches Some(operation) && violation(
        operation.spec_parameters(),
        call,
    ) is None
}

/// Whether `output` is what `schema` promises: one value for each declared
/// output, under its name and of its type, in the order of the schema.
pub open spec fn conforms(output: Seq<Binding>, schema: Seq<ParameterModel>) -> bool {
    &&& output.len() == schema.len()
    &&& forall|i: int|
        0 <= i < schema.len() ==> (#[trigger] output[i]).name == schema[i].id
            && output[i].value.kind() == schema[i].kind
}

/// Whether `output` can be what a completed `call` gave: the call is valid,
/// and the output is what the schema of its instruction promises.
pub open spec fn served(registry: Seq<Operation>, call: CallModel, output: Seq<Binding>) -> bool {
    valid_call(registry, call) && conforms(
        output,
        listed(registry, call.instruction)->0.spec_outputs(),
    )
}

/// Whether every completed call of `batch` was valid and gave what the schema
/// of its instruction promises.
pub open spec fn all_served(batch: BatchModel) -> bool {
    forall|k: int|
        0 <= k < batch.position ==> served(
            batch.registry,
            #[trigger] batch.calls[k],
            batch.output[k],
        )
}

/// Whether `later` is `earlier` some calls on, with or without a call left:
/// the same calls of the same registry, one entry for each completed call,
/// each of them served, and what the earlier calls gave untouched.
pub open spec fn extends(earlier: BatchModel, later: BatchModel) -> bool {
    &&& later.registry == earlier.registry
    &&& later.calls == earlier.calls
    &&& earlier.position <= later.position
    &&& aligned(later)
    &&& all_served(later)
    &&& later.output.take(earlier.position as int) == earlier.output
    &&& later.evidence.take(earlier.position as int) == earlier.evidence
}

/// Whether `later` is `earlier` some calls on, with a valid call in progress.
pub open spec fn carries_on(earlier: BatchModel, later: BatchModel) -> bool {
    &&& extends(earlier, later)
    &&& later.position < later.calls.len()
    &&& valid_call(later.registry, current_call(later))
}

/// Whether the error of the given kind is owed to the `at`-th call of
/// `batch`: every call before it is valid, and the call itself names no
/// instruction of the registry, or fails the schema of its instruction in the
/// way that the error says, or is valid and failed when it was carried out.
pub open spec fn blames(batch: BatchModel, at: int, kind: ErrorKind, reason: Seq<char>) -> bool {
    &&& 0 <= at < batch.calls.len()
    &&& forall|k: int| 0 <= k < at ==> valid_call(batch.registry, #[trigger] batch.calls[k])
    &&& match kind {
        ErrorKind::InvalidInstruction => listed(batch.registry, batch.calls[at].instruction)
            is None && reason == unknown_instruction_reason(batch.calls[at].instruction),
        ErrorKind::EngineProcessingError => valid_call(batch.registry, batch.calls[at]),
        ErrorKind::FailedToParseIPCJson => false,
        _ => listed(batch.registry, batch.calls[at].instruction) matches Some(operation)
            && violation(operation.spec_parameters(), batch.calls[at]) == Some((kind, reason)),
    }
}

/// Whether the error of the given kind is owed to a call of `batch`.
pub open spec fn owed(batch: BatchModel, kind: ErrorKind, reason: Seq<char>) -> bool {
    exists|at: int| blames(batch, at, kind, reason)
}

/// Whether `progress` is a fitting continuation of `earlier`: a question
/// about the call in progress of a batch that carries on from it, or the end
/// of the batch with what all the calls gave or with one error that is owed
/// to one of its calls.
pub open spec fn follows(earlier: BatchModel, progress: ProgressModel) -> bool {
    match progress {
        ProgressModel::Connect(batch) => carries_on(earlier, batch) && batch.root is None,
        ProgressModel::OpenSession(batch) => carries_on(earlier, batch),
        ProgressModel::Resolve(batch, address) => {
            &&& carries_on(earlier, batch)
            &&& batch.root is Some
            &&& current_operation(batch) matches Some(operation)
            &&& address == target_address(operation, current_call(batch))
        },
        ProgressModel::Invoke(batch, leaf) => {
            &&& carries_on(earlier, batch)
            &&& batch.root is Some
            &&& current_operation(batch) == Some(leaf.operation)
            &&& leaf.arguments == current_call(batch).parameters
            &&& declares(leaf.target.kind, leaf.target.capability)
        },
        ProgressModel::Finished(engine, response) => {
            &&& engine.registry == earlier.registry
            &&& match response {
                ResponseModel::Error { kind, reason } => owed(earlier, kind, reason),
                ResponseModel::ExecutionOutput { output, evidence } => {
                    &&& output.len() == earlier.calls.len()
                    &&& evidence.len() == earlier.calls.len()
                    &&& output.take(earlier.position as int) == earlier.output
                    &&& evidence.take(earlier.position as int) == earlier.evidence
                    &&& forall|k: int|
                        0 <= k < earlier.calls.len() ==> served(
                            earlier.registry,
                            #[trigger] earlier.calls[k],
                            output[k],
                        )
                },
                _ => false,
            }
        },
    }
}

/// Whether `progress` neither asks for a connect nor holds another root
/// context than `root`.
pub open spec fn keeps_root(root: Option<ComponentModel>, progress: ProgressModel) -> bool {
    match progress {
        ProgressModel::Connect(_) => false,
        ProgressModel::OpenSession(_) => false,
        ProgressModel::Resolve(batch, _) => batch.root == root,
        ProgressModel::Invoke(batch, _) => batch.root == root,
        ProgressModel::Finished(engine, _) => engine.root == root,
    }
}

/// What cannot be read does not reach the engine: it is answered with the
/// error that says so, and the engine stays as it was.
pub proof fn lemma_unreadable_request_changes_nothing(engine: EngineModel, detail: Seq<char>)
    ensures
        receive(engine, Err(detail)) matches ProgressModel::Finished(
            after,
            ResponseModel::Error { kind, .. },
        ) && after == engine && kind is FailedToParseIPCJson,
{
}

/// A call that names no instruction of the registry ends the batch with
/// `InvalidInstruction`. Nothing is asked of the driver, and the session stays
/// as it was.
pub proof fn lemma_unknown_instruction_is_rejected(batch: BatchModel)
    requires
        batch.position < batch.calls.len(),
        listed(batch.registry, current_call(batch).instruction) is None,
    ensures
        next_call(batch) == ProgressModel::Finished(
            engine_of(batch),
            ResponseModel::Error {
                kind: ErrorKind::InvalidInstruction,
                reason: unknown_instruction_reason(current_call(batch).instruction),
            },
        ),
        engine_of(batch).root == batch.root,
{
}

/// A request whose first call names no instruction of the registry is
/// answered with `InvalidInstruction`, and the engine stays as it was.
pub proof fn lemma_unknown_first_instruction(engine: EngineModel, calls: Seq<CallModel>)
    requires
        calls.len() > 0,
        listed(engine.registry, calls[0].instruction) is None,
    ensures
        begin(engine, RequestModel::RunInstructions { instructions: calls })
            == ProgressModel::Finished(
            engine,
            ResponseModel::Error {
                kind: ErrorKind::InvalidInstruction,
                reason: unknown_instruction_reason(calls[0].instruction),
            },
        ),
{
}

/// Where some declared parameter is failed, the first one to be failed is
/// reported: as missing where the call does not bind it, as of the wrong type
/// where it does.
pub proof fn lemma_unmet_parameter_is_reported(
    schema: Seq<ParameterModel>,
    call: CallModel,
    at: int,
)
    requires
        unmet_at(schema, call.parameters, at),
    ensures
        violation(schema, call) matches Some((kind, _)) && (kind is MissingParameter
            || kind is InvalidParameterType),
    decreases at,
{
    if exists|k: int| 0 <= k < at && unmet_at(schema, call.parameters, k) {
        let k = choose|k: int| 0 <= k < at && unmet_at(schema, call.parameters, k);
        lemma_unmet_parameter_is_reported(schema, call, k);
    } else {
        assert(first_unmet_at(schema, call.parameters, at));
        assert(first_unmet(schema, call.parameters) is Some);
    }
}

/// A call that lacks a declared parameter, or binds one to a value of the
/// wrong type, ends the batch with a validation error. Nothing is asked of the
/// driver for that call, and the session stays as it was.
pub proof fn lemma_invalid_call_is_rejected(batch: BatchModel, operation: Operation, at: int)
    requires
        batch.position < batch.calls.len(),
        current_operation(batch) == Some(operation),
        unmet_at(operation.spec_parameters(), current_call(batch).parameters, at),
    ensures
        next_call(batch) matches ProgressModel::Finished(
            engine,
            ResponseModel::Error { kind, reason },
        ) && engine == engine_of(batch) && (kind is MissingParameter
            || kind is InvalidParameterType) && violation(
            operation.spec_parameters(),
            current_call(batch),
        ) == Some((kind, reason)),
{
    lemma_unmet_parameter_is_reported(operation.spec_parameters(), current_call(batch), at);
}

/// A call that binds a parameter which its instruction does not declare, and
/// fails no declared one, ends the batch with `UnknownParameter`.
pub proof fn lemma_unknown_parameter_is_rejected(batch: BatchModel, operation: Operation)
    requires
        batch.position < batch.calls.len(),
        current_operation(batch) == Some(operation),
        first_unmet(operation.spec_parameters(), current_call(batch).parameters) is None,
        violation(operation.spec_parameters(), current_call(batch)) is Some,
    ensures
        next_call(batch) matches ProgressModel::Finished(
            engine,
            ResponseModel::Error { kind, .. },
        ) && engine == engine_of(batch) && kind is UnknownParameter,
{
}

/// A reset always succeeds and leaves the engine disconnected; a second reset
/// leaves it as the first did.
pub proof fn lemma_reset_is_idempotent(engine: EngineModel)
    ensures
        begin(engine, RequestModel::ResetState) == ProgressModel::Finished(
            EngineModel { registry: engine.registry, root: None },
            ResponseModel::StateReset,
        ),
        begin(
            EngineModel { registry: engine.registry, root: None },
            RequestModel::ResetState,
        ) == begin(engine, RequestModel::ResetState),
{
}

/// The catalogue that is listed does not depend on the session, and listing
/// it does not change the engine.
pub proof fn lemma_catalogue_ignores_session(
    registry: Seq<Operation>,
    root: Option<ComponentModel>,
)
    ensures
        begin(EngineModel { registry, root }, RequestModel::Instructions)
            == ProgressModel::Finished(
            EngineModel { registry, root },
            ResponseModel::Instructions {
                friendly_name: friendly_name(),
                instructions: catalogue(registry),
            },
        ),
{
}

/// An instruction gives one value at most.
pub proof fn lemma_one_output_at_most(operation: Operation)
    ensures
        operation.spec_outputs().len() <= 1,
{
}

/// Nothing is bound where nothing was bound yet.
proof fn lemma_nothing_bound(name: Seq<char>)
    ensures
        !binds(Seq::empty(), name),
{
    let empty = Seq::<Binding>::empty();
    if binds(empty, name) {
        assert(bound_at(empty, name, place_of(empty, name)));
    }
}

/// Values that are what a schema of one output at most promises, bound to the
/// names of the schema, are an output that conforms to it.
proof fn lemma_named_values_conform(schema: Seq<ParameterModel>, values: Seq<Value>)
    requires
        schema.len() <= 1,
        fits(schema, values),
    ensures
        conforms(named_values(schema, values, values.len()), schema),
{
    reveal_with_fuel(named_values, 2);
    if values.len() == 1 {
        lemma_nothing_bound(schema[0].id);
        assert(values[0].kind() == schema[0].kind);
    }
}

/// Ending a batch with an error that is owed to the call in progress is a
/// fitting continuation.
proof fn lemma_fail_follows(
    earlier: BatchModel,
    batch: BatchModel,
    kind: ErrorKind,
    reason: Seq<char>,
)
    requires
        extends(earlier, batch),
        batch.position < batch.calls.len(),
        match kind {
            ErrorKind::InvalidInstruction => current_operation(batch) is None && reason
                == unknown_instruction_reason(current_call(batch).instruction),
            ErrorKind::EngineProcessingError => valid_call(batch.registry, current_call(batch)),
            ErrorKind::FailedToParseIPCJson => false,
            _ => current_operation(batch) matches Some(operation) && violation(
                operation.spec_parameters(),
                current_call(batch),
            ) == Some((kind, reason)),
        },
    ensures
        follows(earlier, fail(batch, kind, reason)),
{
    assert forall|k: int| 0 <= k < batch.position implies valid_call(
        earlier.registry,
        #[trigger] earlier.calls[k],
    ) by {
        assert(served(batch.registry, batch.calls[k], batch.output[k]));
    }
    assert(blames(earlier, batch.position as int, kind, reason));
}

/// Taking up a call is a fitting continuation.
proof fn lemma_next_call_follows(earlier: BatchModel, batch: BatchModel)
    requires
        extends(earlier, batch),
    ensures
        follows(earlier, next_call(batch)),
    decreases batch.calls.len() - batch.position, 2int,
{
    if batch.position < batch.calls.len() {
        match current_operation(batch) {
            None => {
                lemma_fail_follows(
                    earlier,
                    batch,
                    ErrorKind::InvalidInstruction,
                    unknown_instruction_reason(current_call(batch).instruction),
                );
            },
            Some(operation) => match violation(operation.spec_parameters(), current_call(batch)) {
                Some((kind, reason)) => {
                    lemma_fail_follows(earlier, batch, kind, reason);
                },
                None => if batch.root is Some {
                    lemma_engage_follows(earlier, batch, operation);
                },
            },
        }
    }
}

/// Carrying on with a validated call is a fitting continuation.
proof fn lemma_engage_follows(earlier: BatchModel, batch: BatchModel, operation: Operation)
    requires
        carries_on(earlier, batch),
        current_operation(batch) == Some(operation),
    ensures
        follows(earlier, engage(batch, operation)),
    decreases batch.calls.len() - batch.position, 1int,
{
    match batch.root {
        None => {
            lemma_fail_follows(
                earlier,
                batch,
                ErrorKind::EngineProcessingError,
                not_initialised_reason(),
            );
        },
        Some(root) => match operation.spec_target() {
            TargetSource::Nothing => {
                lemma_complete_follows(earlier, batch, Seq::empty(), Seq::empty());
            },
            TargetSource::Root => {
                lemma_act_on_follows(earlier, batch, operation, root);
            },
            _ => {},
        },
    }
}

/// Completing a call with an output that its instruction promises is a
/// fitting continuation.
proof fn lemma_complete_follows(
    earlier: BatchModel,
    batch: BatchModel,
    output: Seq<Binding>,
    evidence: Seq<EvidenceModel>,
)
    requires
        carries_on(earlier, batch),
        conforms(output, current_operation(batch)->0.spec_outputs()),
    ensures
        follows(earlier, complete(batch, output, evidence)),
    decreases batch.calls.len() - batch.position, 0int,
{
    let advanced = advance(batch, output, evidence);
    assert(advanced.output.take(earlier.position as int) =~= batch.output.take(
        earlier.position as int,
    ));
    assert(advanced.evidence.take(earlier.position as int) =~= batch.evidence.take(
        earlier.position as int,
    ));
    assert forall|k: int| 0 <= k < advanced.position implies served(
        advanced.registry,
        #[trigger] advanced.calls[k],
        advanced.output[k],
    ) by {
        if k < batch.position {
            assert(served(batch.registry, batch.calls[k], batch.output[k]));
        }
    }
    lemma_next_call_follows(earlier, advanced);
}

/// Asking for a leaf operation is a fitting continuation.
proof fn lemma_act_on_follows(
    earlier: BatchModel,
    batch: BatchModel,
    operation: Operation,
    target: ComponentModel,
)
    requires
        carries_on(earlier, batch),
        batch.root is Some,
        current_operation(batch) == Some(operation),
    ensures
        follows(earlier, act_on(batch, operation, target)),
{
    lemma_fail_follows(
        earlier,
        batch,
        ErrorKind::EngineProcessingError,
        operation.spec_unsupported(),
    );
    lemma_fail_follows(earlier, batch, ErrorKind::EngineProcessingError, key_range_reason());
}

/// Whatever the driver answers, the engine carries on fittingly.
proof fn lemma_answered_follows(earlier: BatchModel, progress: ProgressModel, answer: AnswerModel)
    requires
        follows(earlier, progress),
    ensures
        follows(earlier, answered(progress, answer)),
{
    match (progress, answer) {
        (ProgressModel::Connect(batch), AnswerModel::Opened(found)) => {
            lemma_fail_follows(
                earlier,
                batch,
                ErrorKind::EngineProcessingError,
                match found {
                    Err(reason) => reason,
                    Ok(_) => no_connection_reason(),
                },
            );
        },
        (ProgressModel::OpenSession(batch), AnswerModel::Entered(found)) => {
            match found {
                Err(reason) => {
                    lemma_fail_follows(earlier, batch, ErrorKind::EngineProcessingError, reason);
                },
                Ok((address, reported)) => match root_after_connect(batch.root, address, reported) {
                    None => {
                        lemma_fail_follows(
                            earlier,
                            batch,
                            ErrorKind::EngineProcessingError,
                            no_session_reason(),
                        );
                    },
                    Some(root) => {
                        lemma_engage_follows(
                            earlier,
                            connected(batch, root),
                            current_operation(batch)->0,
                        );
                    },
                },
            }
        },
        (ProgressModel::Resolve(batch, _), AnswerModel::Resolved(found)) => {
            let operation = current_operation(batch)->0;
            let address = target_address(operation, current_call(batch));
            let resolved = resolution(batch.root, address, found);
            if operation is DoesElementExist {
                lemma_nothing_bound("exists"@);
                lemma_complete_follows(
                    earlier,
                    batch,
                    single_output("exists"@, Value::Boolean(resolved is Some)),
                    Seq::empty(),
                );
            } else if resolved is None {
                lemma_fail_follows(
                    earlier,
                    batch,
                    ErrorKind::EngineProcessingError,
                    operation.spec_not_found(address),
                );
            } else {
                if operation is ComponentType {
                    lemma_nothing_bound("type"@);
                    lemma_complete_follows(
                        earlier,
                        batch,
                        single_output("type"@, Value::String(found->0.reported_type)),
                        Seq::empty(),
                    );
                } else {
                    lemma_act_on_follows(earlier, batch, operation, resolved->0);
                }
            }
        },
        (ProgressModel::Invoke(batch, _), AnswerModel::Completed(outcome)) => {
            let operation = current_operation(batch)->0;
            let call = current_call(batch);
            lemma_fail_follows(earlier, batch, ErrorKind::EngineProcessingError, misfit_reason());
            match outcome {
                LeafOutcomeModel::Failed { step, detail } => {
                    lemma_fail_follows(
                        earlier,
                        batch,
                        ErrorKind::EngineProcessingError,
                        operation.spec_failure_prefix(step, flag_of(call.parameters, "double"@))
                            + detail,
                    );
                },
                LeafOutcomeModel::Returned { values } => {
                    if !(operation is Screenshot) && fits(operation.spec_outputs(), values) {
                        lemma_one_output_at_most(operation);
                        lemma_named_values_conform(operation.spec_outputs(), values);
                        lemma_complete_follows(
                            earlier,
                            batch,
                            named_values(operation.spec_outputs(), values, values.len()),
                            evidence_of(operation, call),
                        );
                    }
                },
                LeafOutcomeModel::Captured { png } => {
                    lemma_fail_follows(
                        earlier,
                        batch,
                        ErrorKind::EngineProcessingError,
                        operation.spec_failure_prefix(LeafStep::Second, false) + too_long_detail(),
                    );
                    if operation is Screenshot && encodable(png.len()) {
                        lemma_complete_follows(
                            earlier,
                            batch,
                            Seq::empty(),
                            Seq::empty().push(
                                EvidenceModel {
                                    label: text_of(call.parameters, "label"@),
                                    content: Content::ImageAsPngBase64(base64_standard(png)),
                                },
                            ),
                        );
                    }
                },
            }
        },
        _ => {},
    }
}

/// A batch is carried out in the order in which its calls were submitted.
///
/// Whatever the driver answers and however often, the request stands at a
/// question about the one call in progress, with one output and one list of
/// evidence for each call before it and none for any call after it, or it is
/// over. A call is taken up only when the one before it is completed, and
/// what a completed call gave is not touched again.
pub proof fn lemma_calls_run_in_order(
    engine: EngineModel,
    calls: Seq<CallModel>,
    answers: Seq<AnswerModel>,
)
    ensures
        follows(
            batch_of(engine, calls),
            run(begin(engine, RequestModel::RunInstructions { instructions: calls }), answers),
        ),
    decreases answers.len(),
{
    let start = batch_of(engine, calls);
    assert(start.output.take(0) =~= start.output);
    assert(start.evidence.take(0) =~= start.evidence);
    if answers.len() == 0 {
        lemma_next_call_follows(start, start);
    } else {
        lemma_calls_run_in_order(engine, calls, answers.drop_last());
        lemma_answered_follows(
            start,
            run(
                begin(engine, RequestModel::RunInstructions { instructions: calls }),
                answers.drop_last(),
            ),
            answers.last(),
        );
    }
}

/// A batch ends with one error, or with the outputs and the evidence of all
/// of its calls: never with a part of them.
pub proof fn lemma_all_or_error(
    engine: EngineModel,
    calls: Seq<CallModel>,
    answers: Seq<AnswerModel>,
)
    ensures
        run(
            begin(engine, RequestModel::RunInstructions { instructions: calls }),
            answers,
        ) matches ProgressModel::Finished(_, response) ==> match response {
            ResponseModel::Error { .. } => true,
            ResponseModel::ExecutionOutput { output, evidence } => output.len() == calls.len()
                && evidence.len() == calls.len(),
            _ => false,
        },
{
    lemma_calls_run_in_order(engine, calls, answers);
}

/// Where a batch ends with an error, the error is owed to one of its calls:
/// every call before that one was valid, and that one names no instruction of
/// the registry, or fails the schema of its instruction in the way that the
/// error says, or was valid and failed when it was carried out. No batch ends
/// with the error for a request that cannot be read.
pub proof fn lemma_errors_are_owed(
    engine: EngineModel,
    calls: Seq<CallModel>,
    answers: Seq<AnswerModel>,
)
    ensures
        run(
            begin(engine, RequestModel::RunInstructions { instructions: calls }),
            answers,
        ) matches ProgressModel::Finished(_, ResponseModel::Error { kind, reason }) ==> owed(
            batch_of(engine, calls),
            kind,
            reason,
        ) && !(kind is FailedToParseIPCJson),
{
    lemma_calls_run_in_order(engine, calls, answers);
}

/// Where a batch ends with outputs, every one of its calls named an
/// instruction of the registry and met its schema, and every output is what
/// the schema of its instruction promises.
pub proof fn lemma_outputs_are_as_promised(
    engine: EngineModel,
    calls: Seq<CallModel>,
    answers: Seq<AnswerModel>,
    at: int,
)
    requires
        0 <= at < calls.len(),
        run(
            begin(engine, RequestModel::RunInstructions { instructions: calls }),
            answers,
        ) matches ProgressModel::Finished(_, ResponseModel::ExecutionOutput { .. }),
    ensures
        valid_call(engine.registry, calls[at]),
        run(
            begin(engine, RequestModel::RunInstructions { instructions: calls }),
            answers,
        ) matches ProgressModel::Finished(_, ResponseModel::ExecutionOutput { output, .. })
            && conforms(
            output[at],
            listed(engine.registry, calls[at].instruction)->0.spec_outputs(),
        ),
{
    lemma_calls_run_in_order(engine, calls, answers);
    assert(served(
        engine.registry,
        calls[at],
        run(
            begin(engine, RequestModel::RunInstructions { instructions: calls }),
            answers,
        )->Finished_1->ExecutionOutput_output[at],
    ));
}

/// Where the driver reports a failure, the batch ends at once with the one
/// error that says so. What the earlier calls gave is not returned, and the
/// session stays as it is.
pub proof fn lemma_driver_failure_ends_batch(batch: BatchModel, reason: Seq<char>, step: LeafStep)
    requires
        current_operation(batch) is Some,
    ensures
        after_connect(batch, Err(reason)) == fail(
            batch,
            ErrorKind::EngineProcessingError,
            reason,
        ),
        after_open_session(batch, Err(reason)) == fail(
            batch,
            ErrorKind::EngineProcessingError,
            reason,
        ),
        !(current_operation(batch)->0 is DoesElementExist) ==> after_resolve(batch, None) == fail(
            batch,
            ErrorKind::EngineProcessingError,
            current_operation(batch)->0.spec_not_found(
                target_address(current_operation(batch)->0, current_call(batch)),
            ),
        ),
        after_leaf(batch, LeafOutcomeModel::Failed { step, detail: reason }) == fail(
            batch,
            ErrorKind::EngineProcessingError,
            current_operation(batch)->0.spec_failure_prefix(
                step,
                flag_of(current_call(batch).parameters, "double"@),
            ) + reason,
        ),
{
}

/// A valid call on an engine that is not connected asks for the connect
/// first, and for nothing else.
pub proof fn lemma_first_call_connects(batch: BatchModel, operation: Operation)
    requires
        batch.position < batch.calls.len(),
        batch.root is None,
        current_operation(batch) == Some(operation),
        violation(operation.spec_parameters(), current_call(batch)) is None,
    ensures
        next_call(batch) == ProgressModel::Connect(batch),
{
}

/// Taking up a call on a connected session asks for no connect.
proof fn lemma_next_call_keeps_root(batch: BatchModel)
    requires
        batch.root is Some,
    ensures
        keeps_root(batch.root, next_call(batch)),
    decreases batch.calls.len() - batch.position, 2int,
{
    if batch.position < batch.calls.len() {
        match current_operation(batch) {
            None => {},
            Some(operation) => match violation(operation.spec_parameters(), current_call(batch)) {
                Some(_) => {},
                None => {
                    lemma_engage_keeps_root(batch, operation);
                },
            },
        }
    }
}

/// Carrying on with a call on a connected session asks for no connect.
proof fn lemma_engage_keeps_root(batch: BatchModel, operation: Operation)
    requires
        batch.root is Some,
    ensures
        keeps_root(batch.root, engage(batch, operation)),
    decreases batch.calls.len() - batch.position, 1int,
{
    if operation.spec_target() is Nothing {
        lemma_complete_keeps_root(batch, Seq::empty(), Seq::empty());
    }
}

/// Completing a call on a connected session asks for no connect.
proof fn lemma_complete_keeps_root(
    batch: BatchModel,
    output: Seq<Binding>,
    evidence: Seq<EvidenceModel>,
)
    requires
        batch.root is Some,
    ensures
        keeps_root(batch.root, complete(batch, output, evidence)),
    decreases batch.calls.len() - batch.position, 0int,
{
    if batch.position < batch.calls.len() {
        lemma_next_call_keeps_root(advance(batch, output, evidence));
    }
}

/// An answer to a batch on a connected session leads to no connect.
proof fn lemma_answered_keeps_root(
    root: Option<ComponentModel>,
    progress: ProgressModel,
    answer: AnswerModel,
)
    requires
        root is Some,
        keeps_root(root, progress),
    ensures
        keeps_root(root, answered(progress, answer)),
{
    match (progress, answer) {
        (ProgressModel::Resolve(batch, _), AnswerModel::Resolved(found)) => {
            if current_operation(batch) is Some {
                let operation = current_operation(batch)->0;
                let resolved = resolution(
                    batch.root,
                    target_address(operation, current_call(batch)),
                    found,
                );
                if operation is DoesElementExist {
                    lemma_complete_keeps_root(
                        batch,
                        single_output("exists"@, Value::Boolean(resolved is Some)),
                        Seq::empty(),
                    );
                } else if resolved is Some && operation is ComponentType {
                    lemma_complete_keeps_root(
                        batch,
                        single_output("type"@, Value::String(found->0.reported_type)),
                        Seq::empty(),
                    );
                }
            }
        },
        (ProgressModel::Invoke(batch, _), AnswerModel::Completed(outcome)) => {
            if current_operation(batch) is Some {
                let operation = current_operation(batch)->0;
                let call = current_call(batch);
                match outcome {
                    LeafOutcomeModel::Failed { .. } => {},
                    LeafOutcomeModel::Returned { values } => {
                        lemma_complete_keeps_root(
                            batch,
                            named_values(operation.spec_outputs(), values, values.len()),
                            evidence_of(operation, call),
                        );
                    },
                    LeafOutcomeModel::Captured { png } => {
                        lemma_complete_keeps_root(
                            batch,
                            Seq::empty(),
                            Seq::empty().push(
                                EvidenceModel {
                                    label: text_of(call.parameters, "label"@),
                                    content: Content::ImageAsPngBase64(base64_standard(png)),
                                },
                            ),
                        );
                    },
                }
            }
        },
        _ => {},
    }
}

/// A connected engine connects no more: whatever the batch and whatever the
/// driver answers, no connect is asked for and the root context stays the
/// one that the engine held.
pub proof fn lemma_connected_engine_connects_no_more(
    engine: EngineModel,
    calls: Seq<CallModel>,
    answers: Seq<AnswerModel>,
)
    requires
        engine.root is Some,
    ensures
        keeps_root(
            engine.root,
            run(begin(engine, RequestModel::RunInstructions { instructions: calls }), answers),
        ),
    decreases answers.len(),
{
    if answers.len() == 0 {
        lemma_next_call_keeps_root(batch_of(engine, calls));
    } else {
        lemma_connected_engine_connects_no_more(engine, calls, answers.drop_last());
        lemma_answered_keeps_root(
            engine.root,
            run(
                begin(engine, RequestModel::RunInstructions { instructions: calls }),
                answers.drop_last(),
            ),
            answers.last(),
        );
    }
}

/// Whether `call` can be carried out by a driver that does not fail: it is
/// valid, and a key code that it sends fits.
pub open spec fn sound_call(registry: Seq<Operation>, call: CallModel) -> bool {
    &&& valid_call(registry, call)
    &&& listed(registry, call.instruction)->0 is SendKey ==> fits_key(
        number_of(call.parameters, "key"@),
    )
}

/// Whether `answer` answers the question at which `progress` stands, and in
/// the way that lets the call in progress go on: the application and the
/// session are of the expected shape, the target is there and declares the
/// capability that the operation needs, and the leaf operation gave what its
/// instruction promises. To a request that is over, every answer is welcome.
pub open spec fn favourable(progress: ProgressModel, answer: AnswerModel) -> bool {
    match (progress, answer) {
        (ProgressModel::Connect(_), AnswerModel::Opened(Ok(reported))) => reported.kind()
            is GuiConnection,
        (ProgressModel::OpenSession(_), AnswerModel::Entered(Ok((_, reported)))) => reported.kind()
            is GuiSession,
        (ProgressModel::Resolve(batch, _), AnswerModel::Resolved(found)) => {
            &&& current_operation(batch) matches Some(operation)
            &&& {
                ||| operation is DoesElementExist
                ||| found is Some && operation is ComponentType
                ||| found matches Some(reported) && operation.spec_capability() matches Some(
                    capability,
                ) && declares(reported.kind(), capability)
            }
        },
        (
            ProgressModel::Invoke(batch, _),
            AnswerModel::Completed(LeafOutcomeModel::Returned { values }),
        ) => {
            &&& current_operation(batch) matches Some(operation)
            &&& !(operation is Screenshot)
            &&& fits(operation.spec_outputs(), values)
        },
        (
            ProgressModel::Invoke(batch, _),
            AnswerModel::Completed(LeafOutcomeModel::Captured { png }),
        ) => {
            &&& current_operation(batch) matches Some(operation)
            &&& operation is Screenshot
            &&& encodable(png.len())
        },
        (ProgressModel::Finished(_, _), _) => true,
        _ => false,
    }
}

/// Whether every one of `answers` is favourable to the question that it
/// meets, when a request starts at `progress`.
pub open spec fn all_favourable(progress: ProgressModel, answers: Seq<AnswerModel>) -> bool {
    forall|i: int|
        0 <= i < answers.len() ==> favourable(
            run(progress, #[trigger] answers.take(i)),
            answers[i],
        )
}

/// Whether `progress` has not failed: it is a question about a batch that
/// carries on from `earlier` on a session that is well formed, or the end of
/// the batch without an error.
pub open spec fn thrives(earlier: BatchModel, progress: ProgressModel) -> bool {
    &&& follows(earlier, progress)
    &&& match progress {
        ProgressModel::Connect(batch) => session_root(batch.root),
        ProgressModel::OpenSession(batch) => session_root(batch.root),
        ProgressModel::Resolve(batch, _) => session_root(batch.root),
        ProgressModel::Invoke(batch, _) => session_root(batch.root),
        ProgressModel::Finished(engine, response) => session_root(engine.root) && !(response
            is Error),
    }
}

/// Whether every call of `batch` is sound.
pub open spec fn all_sound(batch: BatchModel) -> bool {
    forall|k: int| 0 <= k < batch.calls.len() ==> sound_call(
        batch.registry,
        #[trigger] batch.calls[k],
    )
}

/// Taking up a sound call does not fail.
proof fn lemma_next_call_thrives(earlier: BatchModel, batch: BatchModel)
    requires
        extends(earlier, batch),
        all_sound(batch),
        session_root(batch.root),
    ensures
        thrives(earlier, next_call(batch)),
    decreases batch.calls.len() - batch.position, 2int,
{
    lemma_next_call_follows(earlier, batch);
    if batch.position < batch.calls.len() {
        assert(sound_call(batch.registry, batch.calls[batch.position as int]));
        if batch.root is Some {
            lemma_engage_thrives(earlier, batch, current_operation(batch)->0);
        }
    }
}

/// Carrying on with a sound call on a connected session does not fail.
proof fn lemma_engage_thrives(earlier: BatchModel, batch: BatchModel, operation: Operation)
    requires
        carries_on(earlier, batch),
        all_sound(batch),
        batch.root is Some,
        session_root(batch.root),
        current_operation(batch) == Some(operation),
    ensures
        thrives(earlier, engage(batch, operation)),
    decreases batch.calls.len() - batch.position, 1int,
{
    lemma_engage_follows(earlier, batch, operation);
    assert(sound_call(batch.registry, batch.calls[batch.position as int]));
    if operation.spec_target() is Nothing {
        lemma_complete_thrives(earlier, batch, Seq::empty(), Seq::empty());
    }
}

/// Completing a call of a batch of sound calls does not fail.
proof fn lemma_complete_thrives(
    earlier: BatchModel,
    batch: BatchModel,
    output: Seq<Binding>,
    evidence: Seq<EvidenceModel>,
)
    requires
        carries_on(earlier, batch),
        all_sound(batch),
        session_root(batch.root),
        conforms(output, current_operation(batch)->0.spec_outputs()),
    ensures
        thrives(earlier, complete(batch, output, evidence)),
    decreases batch.calls.len() - batch.position, 0int,
{
    lemma_complete_follows(earlier, batch, output, evidence);
    let advanced = advance(batch, output, evidence);
    assert(advanced.output.take(earlier.position as int) =~= batch.output.take(
        earlier.position as int,
    ));
    assert(advanced.evidence.take(earlier.position as int) =~= batch.evidence.take(
        earlier.position as int,
    ));
    assert forall|k: int| 0 <= k < advanced.position implies served(
        advanced.registry,
        #[trigger] advanced.calls[k],
        advanced.output[k],
    ) by {
        if k < batch.position {
            assert(served(batch.registry, batch.calls[k], batch.output[k]));
        }
    }
    lemma_next_call_thrives(earlier, advanced);
}

/// A favourable answer to a batch of sound calls does not fail it.
proof fn lemma_answered_thrives(earlier: BatchModel, progress: ProgressModel, answer: AnswerModel)
    requires
        thrives(earlier, progress),
        all_sound(earlier),
        favourable(progress, answer),
    ensures
        thrives(earlier, answered(progress, answer)),
{
    lemma_answered_follows(earlier, progress, answer);
    match (progress, answer) {
        (ProgressModel::OpenSession(batch), AnswerModel::Entered(Ok((address, reported)))) => {
            let root = root_after_connect(batch.root, address, reported)->0;
            lemma_engage_thrives(earlier, connected(batch, root), current_operation(batch)->0);
        },
        (ProgressModel::Resolve(batch, _), AnswerModel::Resolved(found)) => {
            let operation = current_operation(batch)->0;
            let address = target_address(operation, current_call(batch));
            let resolved = resolution(batch.root, address, found);
            assert(sound_call(batch.registry, batch.calls[batch.position as int]));
            if operation is DoesElementExist {
                lemma_nothing_bound("exists"@);
                lemma_complete_thrives(
                    earlier,
                    batch,
                    single_output("exists"@, Value::Boolean(resolved is Some)),
                    Seq::empty(),
                );
            } else if operation is ComponentType {
                lemma_nothing_bound("type"@);
                lemma_complete_thrives(
                    earlier,
                    batch,
                    single_output("type"@, Value::String(found->0.reported_type)),
                    Seq::empty(),
                );
            }
        },
        (
            ProgressModel::Invoke(batch, _),
            AnswerModel::Completed(LeafOutcomeModel::Returned { values }),
        ) => {
            let operation = current_operation(batch)->0;
            lemma_one_output_at_most(operation);
            lemma_named_values_conform(operation.spec_outputs(), values);
            lemma_complete_thrives(
                earlier,
                batch,
                named_values(operation.spec_outputs(), values, values.len()),
                evidence_of(operation, current_call(batch)),
            );
        },
        (
            ProgressModel::Invoke(batch, _),
            AnswerModel::Completed(LeafOutcomeModel::Captured { png }),
        ) => {
            lemma_complete_thrives(
                earlier,
                batch,
                Seq::empty(),
                Seq::empty().push(
                    EvidenceModel {
                        label: text_of(current_call(batch).parameters, "label"@),
                        content: Content::ImageAsPngBase64(base64_standard(png)),
                    },
                ),
            );
        },
        _ => {},
    }
}

/// Success is owed to a batch of sound calls on a driver that does not fail.
///
/// Where every call names an instruction of the registry, meets its schema
/// and sends no key code that does not fit, and every answer of the driver is
/// favourable to the question that it meets, the batch does not end with an
/// error: it stands at a question, or it has ended with the outputs and the
/// evidence of all of its calls.
pub proof fn lemma_success_is_owed(
    engine: EngineModel,
    calls: Seq<CallModel>,
    answers: Seq<AnswerModel>,
)
    requires
        session_root(engine.root),
        forall|k: int| 0 <= k < calls.len() ==> sound_call(engine.registry, #[trigger] calls[k]),
        all_favourable(
            begin(engine, RequestModel::RunInstructions { instructions: calls }),
            answers,
        ),
    ensures
        !(run(
            begin(engine, RequestModel::RunInstructions { instructions: calls }),
            answers,
        ) matches ProgressModel::Finished(_, ResponseModel::Error { .. })),
        thrives(
            batch_of(engine, calls),
            run(begin(engine, RequestModel::RunInstructions { instructions: calls }), answers),
        ),
    decreases answers.len(),
{
    let start = batch_of(engine, calls);
    let first = begin(engine, RequestModel::RunInstructions { instructions: calls });
    assert(start.output.take(0) =~= start.output);
    assert(start.evidence.take(0) =~= start.evidence);
    if answers.len() == 0 {
        lemma_next_call_thrives(start, start);
    } else {
        let before = answers.drop_last();
        assert forall|i: int| 0 <= i < before.len() implies favourable(
            run(first, #[trigger] before.take(i)),
            before[i],
        ) by {
            assert(before.take(i) =~= answers.take(i));
        }
        lemma_success_is_owed(engine, calls, before);
        assert(answers.take(answers.len() - 1) =~= before);
        assert(favourable(run(first, before), answers.last()));
        lemma_answered_thrives(start, run(first, before), answers.last());
    }
}

} // verus!
