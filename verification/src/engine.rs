//! The dispatch engine: one request at a time, against one session.
//!
//! An engine answers a request in turns with the driver. `process_request`
//! takes the engine and gives back either the response, together with the
//! engine, or a question for the driver, together with the batch in progress.
//! Whoever holds the question answers it and gets the next one. The engine is
//! not to be had again until the batch is over, so no other request can come
//! between the calls of a batch.

use crate::capability::{resolve_capability, CapabilityView, Component};
use crate::catalog::{standard_operations, LeafStep, Operation, TargetSource};
use crate::descriptor::{parameter_models, ParameterSpec};
use crate::evidence::{evidence_models, no_evidence, one_evidence, Evidence};
use crate::model;
use crate::model::{
    after_connect,
    after_leaf,
    after_open_session,
    after_resolve,
    begin,
    fits,
    named_values,
    BatchModel,
    EngineModel,
    LeafCallModel,
    LeafOutcomeModel,
    ProgressModel,
};
use crate::protocol::{
    call_models,
    evidence_lists,
    map_models,
    ErrorKind,
    InstructionCall,
    Request,
    Response,
};
use crate::registry::Registry;
use crate::session::{expect_connection, Reported, ReportedModel, Session};
use crate::text::{join, join3};
use crate::validate::validate;
use crate::values::{ParameterValue, Value, ValueMap};
use vstd::prelude::*;
use vstd::string::*;

verus! {

/// The engine between two requests: a registry and a session.
#[derive(Debug)]
pub struct Engine {
    registry: Registry,
    session: Session,
}

/// A batch in progress.
#[derive(Debug)]
struct Batch {
    registry: Registry,
    session: Session,
    calls: Vec<InstructionCall>,
    position: usize,
    output: Vec<ValueMap>,
    evidence: Vec<Vec<Evidence>>,
}

/// A leaf operation that the driver is asked to carry out.
#[derive(Debug)]
pub struct LeafCall {
    operation: Operation,
    target: CapabilityView,
    arguments: ValueMap,
}

/// What the driver answers to a leaf operation.
#[derive(Debug)]
pub enum LeafOutcome {
    /// A step of the operation failed; `detail` holds the driver's own words.
    Failed { step: LeafStep, detail: String },
    /// The operation was carried out and gave `values`.
    Returned { values: Vec<ParameterValue> },
    /// The operation was carried out and captured an image.
    Captured { png: Vec<u8> },
}

/// The first child of the connection: where it is, and what it is reported
/// to be.
#[derive(Debug)]
pub struct RootFound {
    pub address: String,
    pub reported: Reported,
}

/// A batch that waits for the driver to reach the application.
#[derive(Debug)]
pub struct AwaitingConnection {
    batch: Batch,
}

/// A batch that waits for the driver to enter the session.
#[derive(Debug)]
pub struct AwaitingSession {
    batch: Batch,
}

/// A batch that waits for the driver to find an object.
#[derive(Debug)]
pub struct AwaitingComponent {
    batch: Batch,
    address: String,
}

/// A batch that waits for the driver to carry out a leaf operation.
#[derive(Debug)]
pub struct AwaitingLeaf {
    batch: Batch,
    call: LeafCall,
}

/// Where a request stands: a question for the driver, or the response.
#[derive(Debug)]
pub enum Progress {
    /// The driver is to reach the application and report its first child.
    Connect(AwaitingConnection),
    /// The driver is to report the first child of the connection.
    OpenSession(AwaitingSession),
    /// The driver is to find the object at the address.
    Resolve(AwaitingComponent),
    /// The driver is to carry out the leaf operation.
    Invoke(AwaitingLeaf),
    /// The request is answered, and the engine is free again.
    Finished(Engine, Response),
}

impl View for Engine {
    type V = EngineModel;

    closed spec fn view(&self) -> EngineModel {
        EngineModel { registry: self.registry@, root: self.session@ }
    }
}

impl View for Batch {
    type V = BatchModel;

    closed spec fn view(&self) -> BatchModel {
        BatchModel {
            registry: self.registry@,
            root: self.session@,
            calls: call_models(self.calls@),
            position: self.position as nat,
            output: map_models(self.output@),
            evidence: evidence_lists(self.evidence@),
        }
    }
}

impl View for LeafCall {
    type V = LeafCallModel;

    closed spec fn view(&self) -> LeafCallModel {
        LeafCallModel {
            operation: self.operation,
            target: self.target@,
            arguments: self.arguments@,
        }
    }
}

/// The values of `values`, as the contracts speak of them.
pub open spec fn value_models(values: Seq<ParameterValue>) -> Seq<Value> {
    Seq::new(values.len(), |i: int| values[i]@)
}

impl View for LeafOutcome {
    type V = LeafOutcomeModel;

    open spec fn view(&self) -> LeafOutcomeModel {
        match self {
            LeafOutcome::Failed { step, detail } => LeafOutcomeModel::Failed {
                step: *step,
                detail: detail@,
            },
            LeafOutcome::Returned { values } => LeafOutcomeModel::Returned {
                values: value_models(values@),
            },
            LeafOutcome::Captured { png } => LeafOutcomeModel::Captured { png: png@ },
        }
    }
}

impl View for AwaitingConnection {
    type V = BatchModel;

    closed spec fn view(&self) -> BatchModel {
        self.batch@
    }
}

impl View for AwaitingSession {
    type V = BatchModel;

    closed spec fn view(&self) -> BatchModel {
        self.batch@
    }
}

impl View for AwaitingComponent {
    type V = BatchModel;

    closed spec fn view(&self) -> BatchModel {
        self.batch@
    }
}

impl View for AwaitingLeaf {
    type V = BatchModel;

    closed spec fn view(&self) -> BatchModel {
        self.batch@
    }
}

impl View for Progress {
    type V = ProgressModel;

    open spec fn view(&self) -> ProgressModel {
        match self {
            Progress::Connect(waiting) => ProgressModel::Connect(waiting@),
            Progress::OpenSession(waiting) => ProgressModel::OpenSession(waiting@),
            Progress::Resolve(waiting) => ProgressModel::Resolve(waiting@, waiting.spec_address()),
            Progress::Invoke(waiting) => ProgressModel::Invoke(waiting@, waiting.spec_call()),
            Progress::Finished(engine, response) => ProgressModel::Finished(engine@, response@),
        }
    }
}

/// What the driver found, as the contracts speak of it.
pub open spec fn found_model(found: Result<Reported, String>) -> Result<ReportedModel, Seq<char>> {
    match found {
        Ok(reported) => Ok(reported@),
        Err(reason) => Err(reason@),
    }
}

/// The first child of the connection that the driver found, as the contracts
/// speak of it.
pub open spec fn root_model(found: Result<RootFound, String>) -> Result<
    (Seq<char>, ReportedModel),
    Seq<char>,
> {
    match found {
        Ok(root) => Ok((root.address@, root.reported@)),
        Err(reason) => Err(reason@),
    }
}

/// The object that the driver found, as the contracts speak of it.
pub open spec fn resolved_model(found: Option<Reported>) -> Option<ReportedModel> {
    match found {
        Some(reported) => Some(reported@),
        None => None,
    }
}

/// Binds `values` to the names that `schema` gives to their places, where
/// they are what the schema promises.
pub fn capture_outputs(schema: &Vec<ParameterSpec>, values: &Vec<ParameterValue>) -> (output:
    Option<ValueMap>)
    ensures
        match output {
            Some(bound) => fits(parameter_models(schema@), value_models(values@)) && bound@
                == named_values(
                parameter_models(schema@),
                value_models(values@),
                values@.len(),
            ),
            None => !fits(parameter_models(schema@), value_models(values@)),
        },
{
    if values.len() != schema.len() {
        return None;
    }
    let ghost promised = parameter_models(schema@);
    let ghost given = value_models(values@);
    let mut bound = ValueMap::new();
    let mut at: usize = 0;
    while at < values.len()
        invariant
            at <= values@.len(),
            values@.len() == schema@.len(),
            promised == parameter_models(schema@),
            given == value_models(values@),
            bound@ == named_values(promised, given, at as nat),
            forall|k: int| 0 <= k < at ==> (#[trigger] given[k]).kind() == promised[k].kind,
        decreases values@.len() - at,
    {
        let value = &values[at];
        assert(given[at as int] == value@);
        assert(promised[at as int] == schema@[at as int]@);
        if value.kind() != schema[at].kind {
            return None;
        }
        bound.insert(schema[at].id.clone(), value.clone());
        at += 1;
    }
    Some(bound)
}

impl LeafCall {
    /// The operation to carry out.
    pub fn operation(&self) -> (operation: Operation)
        ensures
            operation == self@.operation,
    {
        self.operation
    }

    /// The object to act on, narrowed to the capability that the operation
    /// needs.
    pub fn target(&self) -> (target: &CapabilityView)
        ensures
            target@ == self@.target,
    {
        &self.target
    }

    /// The parameters of the call.
    pub fn arguments(&self) -> (arguments: &ValueMap)
        ensures
            arguments@ == self@.arguments,
    {
        &self.arguments
    }
}

impl Batch {
    /// Ends the batch with the one error of the given kind.
    fn fail(self, kind: ErrorKind, reason: String) -> (progress: Progress)
        ensures
            progress@ == model::fail(self@, kind, reason@),
    {
        Progress::Finished(
            Engine { registry: self.registry, session: self.session },
            Response::Error { kind, reason },
        )
    }

    /// Ends the batch with the error for a call that names no instruction.
    fn fail_unknown(self) -> (progress: Progress)
        requires
            self@.position < self@.calls.len(),
        ensures
            progress@ == model::fail(
                self@,
                ErrorKind::InvalidInstruction,
                model::unknown_instruction_reason(
                    model::current_call(self@).instruction,
                ),
            ),
    {
        let reason = join3(
            "The requested instruction ",
            self.calls[self.position].instruction.as_str(),
            " could not be handled by this engine.",
        );
        self.fail(ErrorKind::InvalidInstruction, reason)
    }

    /// Ends the batch with what every call gave.
    fn finish(self) -> (progress: Progress)
        ensures
            progress@ == model::finish(self@),
    {
        Progress::Finished(
            Engine { registry: self.registry, session: self.session },
            Response::ExecutionOutput { output: self.output, evidence: self.evidence },
        )
    }

    /// The operation of the call in progress, where the registry lists it.
    fn operation(&self) -> (operation: Option<Operation>)
        requires
            self@.position < self@.calls.len(),
        ensures
            operation == model::current_operation(self@),
    {
        match self.registry.lookup(self.calls[self.position].instruction.as_str()) {
            Some(descriptor) => Some(descriptor.operation()),
            None => None,
        }
    }

    /// Takes up the call in progress.
    fn next_call(self) -> (progress: Progress)
        ensures
            progress@ == model::next_call(self@),
        decreases self@.calls.len() - self@.position, 2int,
    {
        if self.position >= self.calls.len() {
            return self.finish();
        }
        let checked = match self.registry.lookup(self.calls[self.position].instruction.as_str()) {
            Some(descriptor) => Some(
                (descriptor.operation(), validate(descriptor, &self.calls[self.position])),
            ),
            None => None,
        };
        match checked {
            None => self.fail_unknown(),
            Some((_, Err((kind, reason)))) => self.fail(kind, reason),
            Some((operation, Ok(()))) => {
                if self.session.is_connected() {
                    self.engage(operation)
                } else {
                    Progress::Connect(AwaitingConnection { batch: self })
                }
            },
        }
    }

    /// Carries on with a validated call on a connected session.
    fn engage(self, operation: Operation) -> (progress: Progress)
        requires
            self@.position < self@.calls.len(),
        ensures
            progress@ == model::engage(self@, operation),
        decreases self@.calls.len() - self@.position, 1int,
    {
        let root = match self.session.get_session() {
            Ok(root) => Ok(root.clone()),
            Err(reason) => Err(reason),
        };
        match root {
            Err(reason) => self.fail(ErrorKind::EngineProcessingError, reason),
            Ok(root) => match operation.target() {
                TargetSource::Nothing => self.complete(ValueMap::new(), no_evidence()),
                TargetSource::Root => self.act_on(operation, &root),
                TargetSource::Parameter => {
                    let address = self.calls[self.position].parameters.text("target");
                    Progress::Resolve(AwaitingComponent { batch: self, address })
                },
                TargetSource::MainWindow => {
                    let address = "wnd[0]".to_owned();
                    Progress::Resolve(AwaitingComponent { batch: self, address })
                },
            },
        }
    }

    /// Completes the call in progress and takes up the next one.
    fn complete(self, output: ValueMap, evidence: Vec<Evidence>) -> (progress: Progress)
        ensures
            progress@ == model::complete(self@, output@, evidence_models(evidence@)),
        decreases self@.calls.len() - self@.position, 0int,
    {
        if self.position >= self.calls.len() {
            return self.finish();
        }
        let mut advanced = self;
        advanced.position = advanced.position + 1;
        advanced.output.push(output);
        advanced.evidence.push(evidence);
        assert(advanced@ == model::advance(self@, output@, evidence_models(evidence@))) by {
            assert(advanced@.output =~= self@.output.push(output@));
            assert(advanced@.evidence =~= self@.evidence.push(evidence_models(evidence@)));
        }
        advanced.next_call()
    }

    /// Narrows `target` to the capability that `operation` needs and asks the
    /// driver to carry the operation out.
    fn act_on(self, operation: Operation, target: &Component) -> (progress: Progress)
        requires
            self@.position < self@.calls.len(),
        ensures
            progress@ == model::act_on(self@, operation, target@),
    {
        match operation.capability() {
            None => {
                let reason = operation.unsupported().to_owned();
                self.fail(ErrorKind::EngineProcessingError, reason)
            },
            Some(capability) => match resolve_capability(target, capability) {
                Err(_) => {
                    let reason = operation.unsupported().to_owned();
                    self.fail(ErrorKind::EngineProcessingError, reason)
                },
                Ok(view) => {
                    let key = self.calls[self.position].parameters.number("key");
                    if operation == Operation::SendKey && (key < -32768 || key > 32767) {
                        let reason = "out of range integral type conversion attempted".to_owned();
                        self.fail(ErrorKind::EngineProcessingError, reason)
                    } else {
                        let arguments = self.calls[self.position].parameters.clone();
                        let call = LeafCall { operation, target: view, arguments };
                        Progress::Invoke(AwaitingLeaf { batch: self, call })
                    }
                },
            },
        }
    }
}

impl Engine {
    /// An engine that offers `registry` and is not connected.
    pub fn new(registry: Registry) -> (engine: Engine)
        ensures
            engine@ == (EngineModel { registry: registry@, root: None }),
    {
        Engine { registry, session: Session::new() }
    }

    /// An engine that offers the whole catalogue and is not connected.
    pub fn standard() -> (engine: Engine)
        ensures
            engine@ == (EngineModel {
                registry: standard_operations(),
                root: None,
            }),
    {
        Engine::new(Registry::standard())
    }

    /// What the engine offers.
    pub fn registry(&self) -> (registry: &Registry)
        ensures
            registry@ == self@.registry,
    {
        &self.registry
    }

    /// Whether the engine holds a connected session.
    pub fn is_connected(&self) -> (connected: bool)
        ensures
            connected == (self@.root is Some),
    {
        self.session.is_connected()
    }

    /// Takes up `request`: answers it, or asks the driver the first question
    /// on the way to the answer.
    pub fn process_request(self, request: Request) -> (progress: Progress)
        ensures
            progress@ == begin(self@, request@),
    {
        match request {
            Request::ResetState => {
                let mut engine = self;
                engine.session.reset();
                Progress::Finished(engine, Response::StateReset)
            },
            Request::Instructions => {
                let instructions = self.registry.all();
                Progress::Finished(
                    self,
                    Response::Instructions { friendly_name: "SAP".to_owned(), instructions },
                )
            },
            Request::RunInstructions { instructions } => {
                let batch = Batch {
                    registry: self.registry,
                    session: self.session,
                    calls: instructions,
                    position: 0,
                    output: Vec::new(),
                    evidence: Vec::new(),
                };
                assert(batch@ == model::batch_of(self@, call_models(instructions@))) by {
                    assert(batch@.output =~= Seq::empty());
                    assert(batch@.evidence =~= Seq::empty());
                }
                batch.next_call()
            },
        }
    }
}

impl AwaitingConnection {
    #[verifier::type_invariant]
    spec fn in_progress(self) -> bool {
        self.batch@.position < self.batch@.calls.len()
    }

    /// Carries on with what the driver found when it tried to reach the
    /// application: the first child of the application, or the reason why
    /// there is none.
    pub fn opened(self, found: Result<Reported, String>) -> (progress: Progress)
        ensures
            progress@ == after_connect(self@, found_model(found)),
    {
        proof {
            use_type_invariant(&self);
        }
        match found {
            Err(reason) => self.batch.fail(ErrorKind::EngineProcessingError, reason),
            Ok(reported) => match expect_connection(&reported) {
                Ok(()) => Progress::OpenSession(AwaitingSession { batch: self.batch }),
                Err(error) => self.batch.fail(ErrorKind::EngineProcessingError, error.reason),
            },
        }
    }
}

impl AwaitingSession {
    #[verifier::type_invariant]
    spec fn in_progress(self) -> bool {
        self.batch@.position < self.batch@.calls.len()
    }

    /// Carries on with what the driver found when it tried to enter the
    /// session: the first child of the connection, or the reason why there is
    /// none.
    pub fn entered(self, found: Result<RootFound, String>) -> (progress: Progress)
        ensures
            progress@ == after_open_session(self@, root_model(found)),
    {
        proof {
            use_type_invariant(&self);
        }
        let mut batch = self.batch;
        match found {
            Err(reason) => batch.fail(ErrorKind::EngineProcessingError, reason),
            Ok(root) => match batch.session.connect(root.address, &root.reported) {
                Err(error) => batch.fail(ErrorKind::EngineProcessingError, error.reason),
                Ok(()) => match batch.operation() {
                    None => batch.fail_unknown(),
                    Some(operation) => batch.engage(operation),
                },
            },
        }
    }
}

impl AwaitingComponent {
    #[verifier::type_invariant]
    spec fn in_progress(self) -> bool {
        self.batch@.position < self.batch@.calls.len()
    }

    /// The address that the driver is asked to find.
    pub closed spec fn spec_address(&self) -> Seq<char> {
        self.address@
    }

    /// The address that the driver is asked to find.
    pub fn address(&self) -> (address: &str)
        ensures
            address@ == self.spec_address(),
    {
        self.address.as_str()
    }

    /// Carries on with what the driver found at the address: what it reports
    /// of the object, or nothing where there is no object.
    pub fn resolved(self, found: Option<Reported>) -> (progress: Progress)
        ensures
            progress@ == after_resolve(self@, resolved_model(found)),
    {
        proof {
            use_type_invariant(&self);
        }
        let batch = self.batch;
        let operation = match batch.operation() {
            None => {
                return batch.fail_unknown();
            },
            Some(operation) => operation,
        };
        let address = match operation.target() {
            TargetSource::MainWindow => "wnd[0]".to_owned(),
            _ => batch.calls[batch.position].parameters.text("target"),
        };
        let resolved = batch.session.resolve(address, found.as_ref());
        if operation == Operation::DoesElementExist {
            let mut output = ValueMap::new();
            output.insert("exists".to_owned(), ParameterValue::Boolean(resolved.is_ok()));
            return batch.complete(output, no_evidence());
        }
        match resolved {
            Err(missing) => {
                let reason = operation.not_found(missing.address.as_str());
                batch.fail(ErrorKind::EngineProcessingError, reason)
            },
            Ok(target) => {
                if operation == Operation::ComponentType {
                    let reported_type = match found {
                        Some(reported) => reported.reported_type,
                        None => String::new(),
                    };
                    let mut output = ValueMap::new();
                    output.insert("type".to_owned(), ParameterValue::String(reported_type));
                    batch.complete(output, no_evidence())
                } else {
                    batch.act_on(operation, &target)
                }
            },
        }
    }
}

impl AwaitingLeaf {
    #[verifier::type_invariant]
    spec fn in_progress(self) -> bool {
        self.batch@.position < self.batch@.calls.len()
    }

    /// The leaf operation that the driver is asked to carry out.
    pub closed spec fn spec_call(&self) -> LeafCallModel {
        self.call@
    }

    /// The leaf operation that the driver is asked to carry out.
    pub fn call(&self) -> (call: &LeafCall)
        ensures
            call@ == self.spec_call(),
    {
        &self.call
    }

    /// Carries on with the driver's answer to the leaf operation.
    pub fn completed(self, outcome: LeafOutcome) -> (progress: Progress)
        ensures
            progress@ == after_leaf(self@, outcome@),
    {
        proof {
            use_type_invariant(&self);
        }
        let batch = self.batch;
        let operation = match batch.operation() {
            None => {
                return batch.fail_unknown();
            },
            Some(operation) => operation,
        };
        match outcome {
            LeafOutcome::Failed { step, detail } => {
                let double = batch.calls[batch.position].parameters.flag("double");
                let reason = join(operation.failure_prefix(step, double), detail.as_str());
                batch.fail(ErrorKind::EngineProcessingError, reason)
            },
            LeafOutcome::Returned { values } => {
                let captured = if operation == Operation::Screenshot {
                    None
                } else {
                    capture_outputs(&operation.outputs(), &values)
                };
                match captured {
                    Some(output) => {
                        let evidence = if operation == Operation::RunTransaction {
                            let code = batch.calls[batch.position].parameters.text("tcode");
                            one_evidence(
                                Evidence::textual(
                                    "SAP Transaction".to_owned(),
                                    join3("Ran transaction '", code.as_str(), "'."),
                                ),
                            )
                        } else {
                            no_evidence()
                        };
                        batch.complete(output, evidence)
                    },
                    None => {
                        let reason =
                            "The result of the operation does not fit the instruction.".to_owned();
                        batch.fail(ErrorKind::EngineProcessingError, reason)
                    },
                }
            },
            LeafOutcome::Captured { png } => {
                if operation != Operation::Screenshot {
                    let reason =
                        "The result of the operation does not fit the instruction.".to_owned();
                    return batch.fail(ErrorKind::EngineProcessingError, reason);
                }
                let label = batch.calls[batch.position].parameters.text("label");
                match Evidence::screenshot(label, png.as_slice()) {
                    Some(image) => batch.complete(ValueMap::new(), one_evidence(image)),
                    None => {
                        let reason = join(
                            operation.failure_prefix(LeafStep::Second, false),
                            "the image is too long to encode",
                        );
                        batch.fail(ErrorKind::EngineProcessingError, reason)
                    },
                }
            },
        }
    }
}

} // verus!
