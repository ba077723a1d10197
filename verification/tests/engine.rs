use std::collections::HashMap;

use testangel_sap::capability::Capability;
use testangel_sap::catalog::{LeafStep, Operation};
use testangel_sap::codec::receive;
use testangel_sap::engine::{capture_outputs, Engine, LeafCall, LeafOutcome, Progress, RootFound};
use testangel_sap::evidence::EvidenceContent;
use testangel_sap::kind::ComponentKind;
use testangel_sap::protocol::{ErrorKind, InstructionCall, Request, Response};
use testangel_sap::registry::Registry;
use testangel_sap::session::Reported;
use testangel_sap::values::{ParameterKind, ParameterValue, ValueMap};

/// A stand-in for the application: a tree of objects with texts, and a count
/// of everything that was asked of it.
struct Screen {
    application_child: Result<(String, Option<String>), String>,
    root: Result<(String, String), String>,
    objects: HashMap<String, (String, Option<String>)>,
    texts: HashMap<String, String>,
    failing: HashMap<Operation, (LeafStep, String)>,
    connects: usize,
    entered: usize,
    resolved: Vec<String>,
    invoked: Vec<(Operation, String)>,
}

impl Screen {
    fn new() -> Screen {
        let mut objects = HashMap::new();
        objects.insert("wnd[0]".to_string(), ("GuiMainWindow".to_string(), None));
        objects.insert("wnd[0]/usr/txtNAME".to_string(), ("GuiTextField".to_string(), None));
        objects.insert("wnd[0]/usr/lblNAME".to_string(), ("GuiLabel".to_string(), None));
        objects.insert("wnd[0]/tbar[0]/btn[3]".to_string(), ("GuiButton".to_string(), None));
        objects.insert("wnd[0]/usr/chkFLAG".to_string(), ("GuiCheckBox".to_string(), None));
        objects.insert("wnd[0]/usr/grid".to_string(), ("GuiShell".to_string(), Some("GridView".to_string())));
        objects.insert("wnd[0]/usr/tree".to_string(), ("GuiShell".to_string(), Some("Tree".to_string())));
        objects.insert("wnd[0]/sbar".to_string(), ("GuiStatusbar".to_string(), None));
        objects.insert("wnd[0]/usr/tbl".to_string(), ("GuiTableControl".to_string(), None));
        Screen {
            application_child: Ok(("GuiConnection".to_string(), None)),
            root: Ok(("/app/con[0]/ses[0]".to_string(), "GuiSession".to_string())),
            objects,
            texts: HashMap::new(),
            failing: HashMap::new(),
            connects: 0,
            entered: 0,
            resolved: Vec::new(),
            invoked: Vec::new(),
        }
    }

    fn asked(&self) -> usize {
        self.connects + self.entered + self.resolved.len() + self.invoked.len()
    }

    fn find(&mut self, address: &str) -> Option<Reported> {
        self.resolved.push(address.to_string());
        self.objects
            .get(address)
            .map(|(reported_type, sub_type)| Reported { reported_type: reported_type.clone(), sub_type: sub_type.clone() })
    }

    fn invoke(&mut self, call: &LeafCall) -> LeafOutcome {
        let address = call.target().address().to_string();
        self.invoked.push((call.operation(), address.clone()));
        if let Some((step, detail)) = self.failing.get(&call.operation()) {
            return LeafOutcome::Failed { step: *step, detail: detail.clone() };
        }
        match call.operation() {
            Operation::SetTextValue => {
                let value = match call.arguments().get("value") {
                    Some(ParameterValue::String(text)) => text.clone(),
                    other => panic!("no value: {:?}", other),
                };
                self.texts.insert(address, value);
                LeafOutcome::Returned { values: vec![] }
            }
            Operation::GetTextValue => {
                let text = self.texts.get(&address).cloned().unwrap_or_default();
                LeafOutcome::Returned { values: vec![ParameterValue::String(text)] }
            }
            Operation::Screenshot => LeafOutcome::Captured { png: b"hello".to_vec() },
            Operation::GridGetRowCount | Operation::TableGetRowCount => {
                LeafOutcome::Returned { values: vec![ParameterValue::Integer(12)] }
            }
            Operation::GridGetCellValue => LeafOutcome::Returned { values: vec![ParameterValue::String("cell".to_string())] },
            Operation::GetStatusbarState => LeafOutcome::Returned { values: vec![ParameterValue::String("S".to_string())] },
            Operation::TableCellGetId => {
                LeafOutcome::Returned { values: vec![ParameterValue::String("wnd[0]/usr/tbl/txt[1,2]".to_string())] }
            }
            _ => LeafOutcome::Returned { values: vec![] },
        }
    }
}

fn drive(engine: Engine, request: Request, screen: &mut Screen) -> (Engine, Response) {
    let mut progress = engine.process_request(request);
    loop {
        progress = match progress {
            Progress::Finished(engine, response) => return (engine, response),
            Progress::Connect(waiting) => {
                screen.connects += 1;
                waiting.opened(
                    screen
                        .application_child
                        .clone()
                        .map(|(reported_type, sub_type)| Reported { reported_type, sub_type }),
                )
            }
            Progress::OpenSession(waiting) => {
                screen.entered += 1;
                waiting.entered(screen.root.clone().map(|(address, reported_type)| RootFound {
                    address,
                    reported: Reported { reported_type, sub_type: None },
                }))
            }
            Progress::Resolve(waiting) => {
                let found = screen.find(waiting.address());
                waiting.resolved(found)
            }
            Progress::Invoke(waiting) => {
                let outcome = screen.invoke(waiting.call());
                waiting.completed(outcome)
            }
        };
    }
}

fn text(value: &str) -> ParameterValue {
    ParameterValue::String(value.to_string())
}

fn call(id: &str, parameters: Vec<(&str, ParameterValue)>) -> InstructionCall {
    let mut call = InstructionCall::new(id.to_string());
    for (name, value) in parameters {
        call.parameters.insert(name.to_string(), value);
    }
    call
}

fn run(calls: Vec<InstructionCall>) -> Request {
    Request::RunInstructions { instructions: calls }
}

fn error_of(response: Response) -> (ErrorKind, String) {
    match response {
        Response::Error { kind, reason } => (kind, reason),
        other => panic!("no error: {:?}", other),
    }
}

fn output_of(response: Response) -> (Vec<ValueMap>, Vec<Vec<(String, String, bool)>>) {
    match response {
        Response::ExecutionOutput { output, evidence } => {
            let evidence = evidence
                .iter()
                .map(|items| {
                    items
                        .iter()
                        .map(|item| match item.content() {
                            EvidenceContent::Textual(text) => (item.label().to_string(), text.clone(), false),
                            EvidenceContent::ImageAsPngBase64(text) => (item.label().to_string(), text.clone(), true),
                        })
                        .collect()
                })
                .collect();
            (output, evidence)
        }
        other => panic!("no output: {:?}", other),
    }
}

fn press(target: &str) -> InstructionCall {
    call("sap-press-button", vec![("target", text(target))])
}

#[test]
fn unknown_instruction_is_rejected_and_nothing_is_asked() {
    let mut screen = Screen::new();
    let (engine, response) = drive(Engine::standard(), run(vec![call("sap-no-such-thing", vec![])]), &mut screen);
    let (kind, reason) = error_of(response);
    assert_eq!(kind, ErrorKind::InvalidInstruction);
    assert_eq!(reason, "The requested instruction sap-no-such-thing could not be handled by this engine.");
    assert!(!engine.is_connected());
    assert_eq!(screen.asked(), 0);
}

#[test]
fn unknown_instruction_leaves_a_connected_session_connected() {
    let mut screen = Screen::new();
    let (engine, _) = drive(Engine::standard(), run(vec![call("sap-connect", vec![])]), &mut screen);
    assert!(engine.is_connected());
    let asked = screen.asked();
    let (engine, response) = drive(engine, run(vec![call("", vec![("target", text("wnd[0]"))])]), &mut screen);
    let (kind, reason) = error_of(response);
    assert_eq!(kind, ErrorKind::InvalidInstruction);
    assert_eq!(reason, "The requested instruction  could not be handled by this engine.");
    assert!(engine.is_connected());
    assert_eq!(screen.asked(), asked);
}

#[test]
fn unknown_instruction_after_a_good_call_ends_the_batch() {
    let mut screen = Screen::new();
    let (engine, response) = drive(
        Engine::standard(),
        run(vec![press("wnd[0]/tbar[0]/btn[3]"), call("sap-nope", vec![]), press("wnd[0]/tbar[0]/btn[3]")]),
        &mut screen,
    );
    let (kind, _) = error_of(response);
    assert_eq!(kind, ErrorKind::InvalidInstruction);
    assert!(engine.is_connected());
    assert_eq!(screen.invoked, vec![(Operation::PressButton, "wnd[0]/tbar[0]/btn[3]".to_string())]);
}

#[test]
fn missing_parameter_is_rejected_before_anything_is_asked() {
    let mut screen = Screen::new();
    let (engine, response) = drive(Engine::standard(), run(vec![call("sap-press-button", vec![])]), &mut screen);
    let (kind, reason) = error_of(response);
    assert_eq!(kind, ErrorKind::MissingParameter);
    assert_eq!(reason, "Missing parameter target from call to sap-press-button");
    assert!(!engine.is_connected());
    assert_eq!(screen.asked(), 0);
}

#[test]
fn wrong_typed_parameter_is_rejected_before_anything_is_asked() {
    let mut screen = Screen::new();
    let (_, response) = drive(
        Engine::standard(),
        run(vec![call("sap-send-key", vec![("key", ParameterValue::Boolean(true))])]),
        &mut screen,
    );
    let (kind, reason) = error_of(response);
    assert_eq!(kind, ErrorKind::InvalidParameterType);
    assert_eq!(reason, "Invalid kind of parameter key from call to sap-send-key");
    assert_eq!(screen.asked(), 0);
}

#[test]
fn unknown_parameter_is_rejected_before_anything_is_asked() {
    let mut screen = Screen::new();
    let (_, response) = drive(
        Engine::standard(),
        run(vec![call("sap-connect", vec![("target", text("wnd[0]"))])]),
        &mut screen,
    );
    let (kind, reason) = error_of(response);
    assert_eq!(kind, ErrorKind::UnknownParameter);
    assert_eq!(reason, "Unknown parameter target in call to sap-connect");
    assert_eq!(screen.asked(), 0);
}

#[test]
fn invalid_call_in_the_middle_has_no_effect_of_its_own() {
    let mut screen = Screen::new();
    let (_, response) = drive(
        Engine::standard(),
        run(vec![
            call("sap-set-text-value", vec![("target", text("wnd[0]/usr/txtNAME")), ("value", text("kept"))]),
            call("sap-set-text-value", vec![("target", text("wnd[0]/usr/txtNAME")), ("value", ParameterValue::Integer(1))]),
        ]),
        &mut screen,
    );
    let (kind, _) = error_of(response);
    assert_eq!(kind, ErrorKind::InvalidParameterType);
    assert_eq!(screen.resolved, vec!["wnd[0]/usr/txtNAME".to_string()]);
    assert_eq!(screen.invoked.len(), 1);
    assert_eq!(screen.texts.get("wnd[0]/usr/txtNAME").unwrap(), "kept");
}

#[test]
fn later_call_observes_what_an_earlier_call_did() {
    let mut screen = Screen::new();
    let (_, response) = drive(
        Engine::standard(),
        run(vec![
            call("sap-set-text-value", vec![("target", text("wnd[0]/usr/txtNAME")), ("value", text("hello"))]),
            call("sap-get-text-value", vec![("target", text("wnd[0]/usr/txtNAME"))]),
        ]),
        &mut screen,
    );
    let (output, evidence) = output_of(response);
    assert_eq!(output.len(), 2);
    assert_eq!(output[0].len(), 0);
    assert_eq!(output[1].len(), 1);
    assert_eq!(output[1].get("value"), Some(&text("hello")));
    assert_eq!(evidence, vec![vec![], vec![]]);
    assert_eq!(
        screen.invoked,
        vec![
            (Operation::SetTextValue, "wnd[0]/usr/txtNAME".to_string()),
            (Operation::GetTextValue, "wnd[0]/usr/txtNAME".to_string()),
        ]
    );
}

#[test]
fn calls_are_taken_up_in_the_submitted_order() {
    let mut screen = Screen::new();
    let (_, response) = drive(
        Engine::standard(),
        run(vec![
            press("wnd[0]/tbar[0]/btn[3]"),
            call("sap-tab-select", vec![("target", text("wnd[0]/usr/tbl"))]),
            call("sap-grid-get-row-count", vec![("target", text("wnd[0]/usr/grid"))]),
        ]),
        &mut screen,
    );
    let (kind, reason) = error_of(response);
    assert_eq!(kind, ErrorKind::EngineProcessingError);
    assert_eq!(reason, "The tab was invalid");
    assert_eq!(screen.resolved, vec!["wnd[0]/tbar[0]/btn[3]".to_string(), "wnd[0]/usr/tbl".to_string()]);
    assert_eq!(screen.invoked, vec![(Operation::PressButton, "wnd[0]/tbar[0]/btn[3]".to_string())]);
}

#[test]
fn failing_call_gives_one_error_and_no_outputs() {
    let mut screen = Screen::new();
    screen.failing.insert(Operation::PressButton, (LeafStep::First, "boom".to_string()));
    let (engine, response) = drive(
        Engine::standard(),
        run(vec![
            call("sap-set-text-value", vec![("target", text("wnd[0]/usr/txtNAME")), ("value", text("done"))]),
            call("sap-get-text-value", vec![("target", text("wnd[0]/usr/txtNAME"))]),
            press("wnd[0]/tbar[0]/btn[3]"),
            call("sap-set-text-value", vec![("target", text("wnd[0]/usr/txtNAME")), ("value", text("never"))]),
        ]),
        &mut screen,
    );
    assert!(matches!(response, Response::Error { .. }));
    let (kind, reason) = error_of(response);
    assert_eq!(kind, ErrorKind::EngineProcessingError);
    assert_eq!(reason, "Couldn't press button: boom");
    assert!(engine.is_connected());
    assert_eq!(screen.invoked.len(), 3);
    assert_eq!(screen.texts.get("wnd[0]/usr/txtNAME").unwrap(), "done");
}

#[test]
fn successful_batch_gives_one_entry_for_each_call() {
    let mut screen = Screen::new();
    let calls = vec![
        press("wnd[0]/tbar[0]/btn[3]"),
        call("sap-grid-get-row-count", vec![("target", text("wnd[0]/usr/grid"))]),
        call("sap-run-transaction", vec![("tcode", text("VA01"))]),
        call("sap-connect", vec![]),
    ];
    let (_, response) = drive(Engine::standard(), run(calls), &mut screen);
    let (output, evidence) = output_of(response);
    assert_eq!(output.len(), 4);
    assert_eq!(evidence.len(), 4);
    assert_eq!(output[1].get("value"), Some(&ParameterValue::Integer(12)));
}

#[test]
fn empty_batch_gives_empty_output_and_asks_nothing() {
    let mut screen = Screen::new();
    let (engine, response) = drive(Engine::standard(), run(vec![]), &mut screen);
    let (output, evidence) = output_of(response);
    assert!(output.is_empty());
    assert!(evidence.is_empty());
    assert!(!engine.is_connected());
    assert_eq!(screen.asked(), 0);
}

#[test]
fn reset_always_succeeds_and_twice_is_as_once() {
    let mut screen = Screen::new();
    let (engine, response) = drive(Engine::standard(), Request::ResetState, &mut screen);
    assert!(matches!(response, Response::StateReset));
    assert!(!engine.is_connected());
    let (engine, _) = drive(engine, run(vec![call("sap-connect", vec![])]), &mut screen);
    assert!(engine.is_connected());
    let (engine, response) = drive(engine, Request::ResetState, &mut screen);
    assert!(matches!(response, Response::StateReset));
    assert!(!engine.is_connected());
    let (engine, response) = drive(engine, Request::ResetState, &mut screen);
    assert!(matches!(response, Response::StateReset));
    assert!(!engine.is_connected());
    assert_eq!(engine.registry().len(), 24);
    assert_eq!(screen.connects, 1);
}

#[test]
fn catalogue_is_listed_whatever_the_session() {
    let mut screen = Screen::new();
    let list = |response: Response| -> (String, Vec<String>) {
        match response {
            Response::Instructions { friendly_name, instructions } => {
                (friendly_name, instructions.iter().map(|d| d.id().to_string()).collect())
            }
            other => panic!("no catalogue: {:?}", other),
        }
    };
    let (engine, response) = drive(Engine::standard(), Request::Instructions, &mut screen);
    assert!(!engine.is_connected());
    let (name, before) = list(response);
    assert_eq!(name, "SAP");
    assert_eq!(before.len(), 24);
    assert_eq!(before[0], "sap-connect");
    assert_eq!(before[1], "sap-run-transaction");
    assert_eq!(before[23], "sap-table-cell-get-id");
    let (engine, _) = drive(engine, run(vec![call("sap-connect", vec![])]), &mut screen);
    assert!(engine.is_connected());
    let asked = screen.asked();
    let (engine, response) = drive(engine, Request::Instructions, &mut screen);
    assert!(engine.is_connected());
    let (name, after) = list(response);
    assert_eq!(name, "SAP");
    assert_eq!(after, before);
    assert_eq!(screen.asked(), asked);
}

#[test]
fn catalogue_of_a_smaller_registry() {
    let mut registry = Registry::new();
    registry.register(Operation::SendKey);
    registry.register(Operation::Connect);
    let mut screen = Screen::new();
    let (engine, response) = drive(Engine::new(registry), Request::Instructions, &mut screen);
    match response {
        Response::Instructions { instructions, .. } => {
            let ids: Vec<&str> = instructions.iter().map(|d| d.id()).collect();
            assert_eq!(ids, vec!["sap-send-key", "sap-connect"]);
        }
        other => panic!("no catalogue: {:?}", other),
    }
    let (_, response) = drive(engine, run(vec![press("wnd[0]/tbar[0]/btn[3]")]), &mut screen);
    let (kind, _) = error_of(response);
    assert_eq!(kind, ErrorKind::InvalidInstruction);
}

#[test]
fn connection_is_made_once_and_kept() {
    let mut screen = Screen::new();
    let (engine, response) = drive(Engine::standard(), run(vec![press("wnd[0]/tbar[0]/btn[3]")]), &mut screen);
    assert!(matches!(response, Response::ExecutionOutput { .. }));
    assert_eq!(screen.connects, 1);
    assert_eq!(screen.entered, 1);
    let (engine, response) = drive(engine, run(vec![press("wnd[0]/tbar[0]/btn[3]")]), &mut screen);
    assert!(matches!(response, Response::ExecutionOutput { .. }));
    assert_eq!(screen.connects, 1);
    assert_eq!(screen.entered, 1);
    let (engine, _) = drive(engine, Request::ResetState, &mut screen);
    let (_, response) = drive(engine, run(vec![press("wnd[0]/tbar[0]/btn[3]")]), &mut screen);
    assert!(matches!(response, Response::ExecutionOutput { .. }));
    assert_eq!(screen.connects, 2);
    assert_eq!(screen.entered, 2);
}

#[test]
fn connection_is_made_once_within_a_batch() {
    let mut screen = Screen::new();
    let (_, response) = drive(
        Engine::standard(),
        run(vec![
            call("sap-connect", vec![]),
            call("sap-connect", vec![]),
            press("wnd[0]/tbar[0]/btn[3]"),
            call("sap-connect", vec![]),
        ]),
        &mut screen,
    );
    let (output, _) = output_of(response);
    assert_eq!(output.len(), 4);
    assert_eq!(screen.connects, 1);
    assert_eq!(screen.entered, 1);
}

#[test]
fn unreachable_application_fails_the_batch_and_is_tried_again_later() {
    let mut screen = Screen::new();
    screen.application_child = Err("Couldn't get COM instance".to_string());
    let (engine, response) = drive(Engine::standard(), run(vec![press("wnd[0]/tbar[0]/btn[3]")]), &mut screen);
    let (kind, reason) = error_of(response);
    assert_eq!(kind, ErrorKind::EngineProcessingError);
    assert_eq!(reason, "Couldn't get COM instance");
    assert!(!engine.is_connected());
    assert_eq!(screen.connects, 1);
    assert_eq!(screen.entered, 0);
    screen.application_child = Ok(("GuiConnection".to_string(), None));
    let (engine, response) = drive(engine, run(vec![press("wnd[0]/tbar[0]/btn[3]")]), &mut screen);
    assert!(matches!(response, Response::ExecutionOutput { .. }));
    assert!(engine.is_connected());
    assert_eq!(screen.connects, 2);
}

#[test]
fn application_child_of_another_kind_fails_the_connect() {
    let mut screen = Screen::new();
    screen.application_child = Ok(("GuiSession".to_string(), None));
    let (engine, response) = drive(Engine::standard(), run(vec![call("sap-connect", vec![])]), &mut screen);
    let (kind, reason) = error_of(response);
    assert_eq!(kind, ErrorKind::EngineProcessingError);
    assert_eq!(reason, "Expected GuiConnection, but got something else!");
    assert!(!engine.is_connected());
    assert_eq!(screen.entered, 0);
}

#[test]
fn connection_child_of_another_kind_fails_the_connect() {
    let mut screen = Screen::new();
    screen.root = Ok(("/app/con[0]/x".to_string(), "GuiMainWindow".to_string()));
    let (engine, response) = drive(Engine::standard(), run(vec![call("sap-connect", vec![])]), &mut screen);
    let (kind, reason) = error_of(response);
    assert_eq!(kind, ErrorKind::EngineProcessingError);
    assert_eq!(reason, "Expected GuiSession, but got something else!");
    assert!(!engine.is_connected());
    screen.root = Err("Couldn't get child of GuiConnection: gone".to_string());
    let (engine, response) = drive(engine, run(vec![call("sap-connect", vec![])]), &mut screen);
    let (_, reason) = error_of(response);
    assert_eq!(reason, "Couldn't get child of GuiConnection: gone");
    assert!(!engine.is_connected());
}

#[test]
fn element_existence_is_an_output_not_an_error() {
    let mut screen = Screen::new();
    let (_, response) = drive(
        Engine::standard(),
        run(vec![
            call("sap-does-element-exist", vec![("target", text("wnd[0]/usr/txtNAME"))]),
            call("sap-does-element-exist", vec![("target", text("wnd[0]/usr/none"))]),
        ]),
        &mut screen,
    );
    let (output, _) = output_of(response);
    assert_eq!(output[0].get("exists"), Some(&ParameterValue::Boolean(true)));
    assert_eq!(output[1].get("exists"), Some(&ParameterValue::Boolean(false)));
    assert!(screen.invoked.is_empty());
}

#[test]
fn component_type_is_the_reported_type() {
    let mut screen = Screen::new();
    let (_, response) = drive(
        Engine::standard(),
        run(vec![
            call("sap-component-type", vec![("target", text("wnd[0]/usr/grid"))]),
            call("sap-component-type", vec![("target", text("wnd[0]/usr/lblNAME"))]),
        ]),
        &mut screen,
    );
    let (output, _) = output_of(response);
    assert_eq!(output[0].get("type"), Some(&text("GuiShell")));
    assert_eq!(output[1].get("type"), Some(&text("GuiLabel")));
    let (_, response) = drive(
        Engine::standard(),
        run(vec![call("sap-component-type", vec![("target", text("wnd[0]/usr/none"))])]),
        &mut screen,
    );
    let (kind, reason) = error_of(response);
    assert_eq!(kind, ErrorKind::EngineProcessingError);
    assert_eq!(reason, "Couldn't find wnd[0]/usr/none.");
}

#[test]
fn missing_target_is_reported_in_the_words_of_the_instruction() {
    let cases = [
        (call("sap-set-text-value", vec![("target", text("a/b")), ("value", text("v"))]), "Couldn't find a/b."),
        (press("a/b"), "Failed to find component"),
        (call("sap-grid-context-menu", vec![("target", text("a/b"))]), "Failed to find grid"),
        (call("sap-get-statusbar-state", vec![("target", text("a/b"))]), "Failed to find status bar"),
        (call("sap-tab-select", vec![("target", text("a/b"))]), "Failed to find tab"),
        (call("sap-table-get-row-count", vec![("target", text("a/b"))]), "Failed to find table"),
    ];
    for (call, expected) in cases {
        let mut screen = Screen::new();
        let (_, response) = drive(Engine::standard(), run(vec![call]), &mut screen);
        let (kind, reason) = error_of(response);
        assert_eq!(kind, ErrorKind::EngineProcessingError);
        assert_eq!(reason, expected);
        assert!(screen.invoked.is_empty());
    }
}

#[test]
fn target_without_the_capability_is_reported_in_the_words_of_the_instruction() {
    let cases = [
        (press("wnd[0]/usr/lblNAME"), "Tried to press a non-button"),
        (
            call("sap-set-checkbox", vec![("target", text("wnd[0]/tbar[0]/btn[3]")), ("state", ParameterValue::Boolean(true))]),
            "Tried to check a non-checkbox",
        ),
        (call("sap-grid-get-row-count", vec![("target", text("wnd[0]/usr/tree"))]), "The grid was invalid"),
        (
            call("sap-shell-select-context-menu-item", vec![("target", text("wnd[0]/usr/txtNAME")), ("function_code", text("F"))]),
            "The shell was invalid",
        ),
        (call("sap-screenshot", vec![("label", text("l")), ("target", text("wnd[0]/usr/txtNAME"))]), "No valid target to screenshot."),
        (call("sap-get-statusbar-state", vec![("target", text("wnd[0]"))]), "The statusbar was invalid"),
        (call("sap-table-get-row-count", vec![("target", text("wnd[0]/usr/grid"))]), "The table was invalid"),
    ];
    for (call, expected) in cases {
        let mut screen = Screen::new();
        let (_, response) = drive(Engine::standard(), run(vec![call]), &mut screen);
        let (kind, reason) = error_of(response);
        assert_eq!(kind, ErrorKind::EngineProcessingError);
        assert_eq!(reason, expected);
        assert!(screen.invoked.is_empty());
    }
}

#[test]
fn leaf_call_carries_the_view_and_the_arguments() {
    let engine = Engine::standard();
    let request = run(vec![call(
        "sap-shell-select-context-menu-item",
        vec![("target", text("wnd[0]/usr/grid")), ("function_code", text("&XXL"))],
    )]);
    let waiting = match engine.process_request(request) {
        Progress::Connect(waiting) => waiting,
        other => panic!("unexpected progress: {:?}", other),
    };
    let waiting = match waiting.opened(Ok(Reported { reported_type: "GuiConnection".to_string(), sub_type: None })) {
        Progress::OpenSession(waiting) => waiting,
        other => panic!("unexpected progress: {:?}", other),
    };
    let waiting = match waiting.entered(Ok(RootFound {
        address: "/app/con[0]/ses[0]".to_string(),
        reported: Reported { reported_type: "GuiSession".to_string(), sub_type: None },
    })) {
        Progress::Resolve(waiting) => waiting,
        other => panic!("unexpected progress: {:?}", other),
    };
    assert_eq!(waiting.address(), "wnd[0]/usr/grid");
    let waiting = match waiting
        .resolved(Some(Reported { reported_type: "GuiShell".to_string(), sub_type: Some("GridView".to_string()) }))
    {
        Progress::Invoke(waiting) => waiting,
        other => panic!("unexpected progress: {:?}", other),
    };
    let leaf = waiting.call();
    assert_eq!(leaf.operation(), Operation::ShellSelectContextMenuItem);
    assert_eq!(leaf.target().address(), "wnd[0]/usr/grid");
    assert_eq!(leaf.target().kind(), ComponentKind::GuiGridView);
    assert_eq!(leaf.target().capability(), Capability::ShellLike);
    assert_eq!(leaf.arguments().get("function_code"), Some(&text("&XXL")));
    assert_eq!(leaf.arguments().len(), 2);
    match waiting.completed(LeafOutcome::Returned { values: vec![] }) {
        Progress::Finished(engine, Response::ExecutionOutput { output, evidence }) => {
            assert!(engine.is_connected());
            assert_eq!(output.len(), 1);
            assert_eq!(output[0].len(), 0);
            assert_eq!(evidence.len(), 1);
            assert!(evidence[0].is_empty());
        }
        other => panic!("unexpected progress: {:?}", other),
    }
}

#[test]
fn key_is_sent_to_the_main_window() {
    let mut screen = Screen::new();
    let (_, response) = drive(
        Engine::standard(),
        run(vec![call("sap-send-key", vec![("key", ParameterValue::Integer(8))])]),
        &mut screen,
    );
    assert!(matches!(response, Response::ExecutionOutput { .. }));
    assert_eq!(screen.resolved, vec!["wnd[0]".to_string()]);
    assert_eq!(screen.invoked, vec![(Operation::SendKey, "wnd[0]".to_string())]);
}

#[test]
fn key_must_fit_sixteen_bits() {
    for key in [32768, -32769, i32::MAX, i32::MIN] {
        let mut screen = Screen::new();
        let (_, response) = drive(
            Engine::standard(),
            run(vec![call("sap-send-key", vec![("key", ParameterValue::Integer(key))])]),
            &mut screen,
        );
        let (kind, reason) = error_of(response);
        assert_eq!(kind, ErrorKind::EngineProcessingError);
        assert_eq!(reason, "out of range integral type conversion attempted");
        assert!(screen.invoked.is_empty());
    }
    for key in [32767, -32768, 0] {
        let mut screen = Screen::new();
        let (_, response) = drive(
            Engine::standard(),
            run(vec![call("sap-send-key", vec![("key", ParameterValue::Integer(key))])]),
            &mut screen,
        );
        assert!(matches!(response, Response::ExecutionOutput { .. }));
        assert_eq!(screen.invoked.len(), 1);
    }
}

#[test]
fn main_window_is_checked_before_the_key() {
    let mut screen = Screen::new();
    screen.objects.insert("wnd[0]".to_string(), ("GuiLabel".to_string(), None));
    let (_, response) = drive(
        Engine::standard(),
        run(vec![call("sap-send-key", vec![("key", ParameterValue::Integer(99999))])]),
        &mut screen,
    );
    let (_, reason) = error_of(response);
    assert_eq!(reason, "Window invalid");
    screen.objects.remove("wnd[0]");
    let (_, response) = drive(
        Engine::standard(),
        run(vec![call("sap-send-key", vec![("key", ParameterValue::Integer(8))])]),
        &mut screen,
    );
    let (_, reason) = error_of(response);
    assert_eq!(reason, "SAP window couldn't be requested.");
}

#[test]
fn other_key_parameters_are_not_held_to_sixteen_bits() {
    let mut screen = Screen::new();
    screen.objects.insert("wnd[0]/usr/cmb".to_string(), ("GuiComboBox".to_string(), None));
    let (_, response) = drive(
        Engine::standard(),
        run(vec![call("sap-set-combobox-key", vec![("target", text("wnd[0]/usr/cmb")), ("key", text("DE"))])]),
        &mut screen,
    );
    assert!(matches!(response, Response::ExecutionOutput { .. }));
}

#[test]
fn transaction_leaves_textual_evidence() {
    let mut screen = Screen::new();
    let (_, response) = drive(
        Engine::standard(),
        run(vec![call("sap-run-transaction", vec![("tcode", text("VA01"))])]),
        &mut screen,
    );
    let (output, evidence) = output_of(response);
    assert_eq!(output.len(), 1);
    assert_eq!(output[0].len(), 0);
    assert_eq!(evidence, vec![vec![("SAP Transaction".to_string(), "Ran transaction 'VA01'.".to_string(), false)]]);
    assert_eq!(screen.invoked, vec![(Operation::RunTransaction, "/app/con[0]/ses[0]".to_string())]);
    assert!(screen.resolved.is_empty());
}

#[test]
fn failed_transaction_leaves_no_evidence() {
    let mut screen = Screen::new();
    screen.failing.insert(Operation::RunTransaction, (LeafStep::First, "no authorisation".to_string()));
    let (_, response) = drive(
        Engine::standard(),
        run(vec![call("sap-run-transaction", vec![("tcode", text("VA01"))])]),
        &mut screen,
    );
    let (kind, reason) = error_of(response);
    assert_eq!(kind, ErrorKind::EngineProcessingError);
    assert_eq!(reason, "Couldn't execute transaction. no authorisation");
}

#[test]
fn screenshot_leaves_an_image_as_evidence() {
    let mut screen = Screen::new();
    let (_, response) = drive(
        Engine::standard(),
        run(vec![call("sap-screenshot", vec![("label", text("After save")), ("target", text("wnd[0]"))])]),
        &mut screen,
    );
    let (output, evidence) = output_of(response);
    assert_eq!(output[0].len(), 0);
    assert_eq!(evidence, vec![vec![("After save".to_string(), "aGVsbG8=".to_string(), true)]]);
}

#[test]
fn failing_steps_are_reported_with_their_prefix() {
    let cases = [
        (Operation::Screenshot, LeafStep::First, call("sap-screenshot", vec![("label", text("l")), ("target", text("wnd[0]"))]), "Can't screenshot: x"),
        (Operation::Screenshot, LeafStep::Second, call("sap-screenshot", vec![("label", text("l")), ("target", text("wnd[0]"))]), "Failed to read screenshot: x"),
        (Operation::VisualiseElement, LeafStep::First, call("sap-visualise-element", vec![("target", text("wnd[0]"))]), "Failed to visualize: x"),
        (Operation::GetTextValue, LeafStep::First, call("sap-get-text-value", vec![("target", text("wnd[0]"))]), "Can't get text: x"),
        (Operation::SendKey, LeafStep::First, call("sap-send-key", vec![("key", ParameterValue::Integer(0))]), "Couldn't send VKey: x"),
        (Operation::GridGetRowCount, LeafStep::First, call("sap-grid-get-row-count", vec![("target", text("wnd[0]/usr/grid"))]), "x"),
        (
            Operation::GridClickCell,
            LeafStep::First,
            call("sap-grid-click-cell", vec![("target", text("wnd[0]/usr/grid")), ("row", ParameterValue::Integer(1)), ("col", text("A")), ("double", ParameterValue::Boolean(true))]),
            "Couldn't select cell in grid: x",
        ),
        (
            Operation::GridClickCell,
            LeafStep::Second,
            call("sap-grid-click-cell", vec![("target", text("wnd[0]/usr/grid")), ("row", ParameterValue::Integer(1)), ("col", text("A")), ("double", ParameterValue::Boolean(true))]),
            "The grid couldn't be double clicked: x",
        ),
        (
            Operation::GridClickCell,
            LeafStep::Second,
            call("sap-grid-click-cell", vec![("target", text("wnd[0]/usr/grid")), ("row", ParameterValue::Integer(1)), ("col", text("A")), ("double", ParameterValue::Boolean(false))]),
            "The grid couldn't be clicked: x",
        ),
        (
            Operation::TableRowSelect,
            LeafStep::Second,
            call("sap-table-row-select", vec![("target", text("wnd[0]/usr/tbl")), ("row", ParameterValue::Integer(1))]),
            "Failed to select row: x",
        ),
        (
            Operation::TableCellGetId,
            LeafStep::First,
            call("sap-table-cell-get-id", vec![("target", text("wnd[0]/usr/tbl")), ("row", ParameterValue::Integer(1)), ("column", ParameterValue::Integer(2))]),
            "Failed to get table cell: x",
        ),
    ];
    for (operation, step, call, expected) in cases {
        let mut screen = Screen::new();
        screen.failing.insert(operation, (step, "x".to_string()));
        let (_, response) = drive(Engine::standard(), run(vec![call]), &mut screen);
        let (kind, reason) = error_of(response);
        assert_eq!(kind, ErrorKind::EngineProcessingError);
        assert_eq!(reason, expected);
    }
}

#[test]
fn outputs_are_named_by_the_schema() {
    let mut screen = Screen::new();
    let (_, response) = drive(
        Engine::standard(),
        run(vec![
            call("sap-grid-get-cell-value", vec![("target", text("wnd[0]/usr/grid")), ("row", ParameterValue::Integer(1)), ("col", text("A"))]),
            call("sap-get-statusbar-state", vec![("target", text("wnd[0]/sbar"))]),
            call("sap-table-get-row-count", vec![("target", text("wnd[0]/usr/tbl"))]),
            call("sap-table-cell-get-id", vec![("target", text("wnd[0]/usr/tbl")), ("row", ParameterValue::Integer(1)), ("column", ParameterValue::Integer(2))]),
        ]),
        &mut screen,
    );
    let (output, _) = output_of(response);
    assert_eq!(output[0].get("value"), Some(&text("cell")));
    assert_eq!(output[1].get("status"), Some(&text("S")));
    assert_eq!(output[2].get("rows"), Some(&ParameterValue::Integer(12)));
    assert_eq!(output[3].get("id"), Some(&text("wnd[0]/usr/tbl/txt[1,2]")));
    for map in &output {
        assert_eq!(map.len(), 1);
    }
}

fn answer_leaf(request: Request, reported_type: &str, outcome: LeafOutcome) -> Response {
    let mut progress = Engine::standard().process_request(request);
    loop {
        progress = match progress {
            Progress::Finished(_, response) => return response,
            Progress::Connect(waiting) => {
                waiting.opened(Ok(Reported { reported_type: "GuiConnection".to_string(), sub_type: None }))
            }
            Progress::OpenSession(waiting) => waiting.entered(Ok(RootFound {
                address: "/app/con[0]/ses[0]".to_string(),
                reported: Reported { reported_type: "GuiSession".to_string(), sub_type: None },
            })),
            Progress::Resolve(waiting) => {
                waiting.resolved(Some(Reported { reported_type: reported_type.to_string(), sub_type: None }))
            }
            Progress::Invoke(waiting) => return match waiting.completed(outcome) {
                Progress::Finished(_, response) => response,
                other => panic!("unexpected progress: {:?}", other),
            },
        };
    }
}

#[test]
fn answer_that_does_not_fit_the_instruction_fails_the_call() {
    let misfit = "The result of the operation does not fit the instruction.";
    let get_text = || run(vec![call("sap-get-text-value", vec![("target", text("t"))])]);
    let shot = || run(vec![call("sap-screenshot", vec![("label", text("l")), ("target", text("wnd[0]"))])]);
    let cases = vec![
        (get_text(), "GuiTextField", LeafOutcome::Returned { values: vec![] }),
        (get_text(), "GuiTextField", LeafOutcome::Returned { values: vec![ParameterValue::Integer(1)] }),
        (get_text(), "GuiTextField", LeafOutcome::Returned { values: vec![text("a"), text("b")] }),
        (get_text(), "GuiTextField", LeafOutcome::Captured { png: vec![1, 2, 3] }),
        (run(vec![press("b")]), "GuiButton", LeafOutcome::Returned { values: vec![text("a")] }),
        (shot(), "GuiMainWindow", LeafOutcome::Returned { values: vec![] }),
    ];
    for (request, reported_type, outcome) in cases {
        let (kind, reason) = error_of(answer_leaf(request, reported_type, outcome));
        assert_eq!(kind, ErrorKind::EngineProcessingError);
        assert_eq!(reason, misfit);
    }
}

#[test]
fn outputs_are_captured_against_a_schema() {
    let schema = Operation::GetTextValue.outputs();
    let bound = capture_outputs(&schema, &vec![text("a")]).unwrap();
    assert_eq!(bound.len(), 1);
    assert_eq!(bound.get("value"), Some(&text("a")));
    assert!(capture_outputs(&schema, &vec![]).is_none());
    assert!(capture_outputs(&schema, &vec![ParameterValue::Boolean(true)]).is_none());
    assert!(capture_outputs(&schema, &vec![text("a"), text("b")]).is_none());
    let nothing = capture_outputs(&Operation::PressButton.outputs(), &vec![]).unwrap();
    assert_eq!(nothing.len(), 0);
    let two = testangel_sap::descriptor::and_parameter(
        testangel_sap::descriptor::and_parameter(
            testangel_sap::descriptor::no_parameters(),
            "rows",
            "Rows",
            ParameterKind::Integer,
        ),
        "title",
        "Title",
        ParameterKind::String,
    );
    let bound = capture_outputs(&two, &vec![ParameterValue::Integer(3), text("t")]).unwrap();
    assert_eq!(bound.name_at(0), "rows");
    assert_eq!(bound.name_at(1), "title");
    assert_eq!(bound.get("rows"), Some(&ParameterValue::Integer(3)));
    assert_eq!(bound.get("title"), Some(&text("t")));
    assert!(capture_outputs(&two, &vec![text("t"), ParameterValue::Integer(3)]).is_none());
}

#[test]
fn unreadable_request_does_not_reach_the_engine() {
    let mut screen = Screen::new();
    let (engine, _) = drive(Engine::standard(), run(vec![call("sap-connect", vec![])]), &mut screen);
    let asked = screen.asked();
    match receive(engine, Err("expected value at line 1 column 1".to_string())) {
        Progress::Finished(engine, Response::Error { kind, reason }) => {
            assert_eq!(kind, ErrorKind::FailedToParseIPCJson);
            assert_eq!(reason, "The IPC message was invalid. (expected value at line 1 column 1)");
            assert!(engine.is_connected());
        }
        other => panic!("unexpected progress: {:?}", other),
    }
    assert_eq!(screen.asked(), asked);
}

#[test]
fn readable_request_is_taken_up() {
    match receive(Engine::standard(), Ok(Request::ResetState)) {
        Progress::Finished(engine, Response::StateReset) => assert!(!engine.is_connected()),
        other => panic!("unexpected progress: {:?}", other),
    }
    match receive(Engine::standard(), Ok(run(vec![press("wnd[0]/tbar[0]/btn[3]")]))) {
        Progress::Connect(_) => {}
        other => panic!("unexpected progress: {:?}", other),
    }
}
