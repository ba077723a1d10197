use testangel_sap::catalog::Operation;
use testangel_sap::descriptor::{and_parameter, no_parameters, Descriptor};
use testangel_sap::protocol::{ErrorKind, InstructionCall};
use testangel_sap::validate::{declares_parameter, validate};
use testangel_sap::values::{ParameterKind, ParameterValue};

fn call(id: &str, parameters: Vec<(&str, ParameterValue)>) -> InstructionCall {
    let mut call = InstructionCall::new(id.to_string());
    for (name, value) in parameters {
        call.parameters.insert(name.to_string(), value);
    }
    call
}

fn text(value: &str) -> ParameterValue {
    ParameterValue::String(value.to_string())
}

#[test]
fn call_that_meets_the_schema_is_accepted() {
    let descriptor = Descriptor::of(Operation::GridClickCell);
    let call = call(
        "sap-grid-click-cell",
        vec![
            ("double", ParameterValue::Boolean(false)),
            ("col", text("MATNR")),
            ("row", ParameterValue::Integer(3)),
            ("target", text("wnd[0]/usr/grid")),
        ],
    );
    assert!(validate(&descriptor, &call).is_ok());
}

#[test]
fn call_without_parameters_is_accepted_where_none_are_declared() {
    let descriptor = Descriptor::of(Operation::Connect);
    assert!(validate(&descriptor, &call("sap-connect", vec![])).is_ok());
}

#[test]
fn missing_parameter_is_reported() {
    let descriptor = Descriptor::of(Operation::SetTextValue);
    let call = call("sap-set-text-value", vec![("target", text("wnd[0]/usr/txt"))]);
    let (kind, reason) = validate(&descriptor, &call).unwrap_err();
    assert_eq!(kind, ErrorKind::MissingParameter);
    assert_eq!(reason, "Missing parameter value from call to sap-set-text-value");
}

#[test]
fn wrong_type_is_reported() {
    let descriptor = Descriptor::of(Operation::SendKey);
    let call = call("sap-send-key", vec![("key", text("8"))]);
    let (kind, reason) = validate(&descriptor, &call).unwrap_err();
    assert_eq!(kind, ErrorKind::InvalidParameterType);
    assert_eq!(reason, "Invalid kind of parameter key from call to sap-send-key");
}

#[test]
fn unknown_parameter_is_reported() {
    let descriptor = Descriptor::of(Operation::PressButton);
    let call = call("sap-press-button", vec![("target", text("wnd[0]/tbar[0]/btn[3]")), ("id", text("x"))]);
    let (kind, reason) = validate(&descriptor, &call).unwrap_err();
    assert_eq!(kind, ErrorKind::UnknownParameter);
    assert_eq!(reason, "Unknown parameter id in call to sap-press-button");
}

#[test]
fn first_failure_in_schema_order_is_reported() {
    let descriptor = Descriptor::of(Operation::GridClickCell);
    let call = call(
        "sap-grid-click-cell",
        vec![("double", text("yes")), ("extra", text("x")), ("target", text("wnd[0]/usr/grid"))],
    );
    let (kind, reason) = validate(&descriptor, &call).unwrap_err();
    assert_eq!(kind, ErrorKind::MissingParameter);
    assert_eq!(reason, "Missing parameter row from call to sap-grid-click-cell");
}

#[test]
fn wrong_type_comes_before_a_later_missing_parameter() {
    let descriptor = Descriptor::of(Operation::TableCellGetId);
    let call = call("sap-table-cell-get-id", vec![("target", text("t")), ("row", text("1"))]);
    let (kind, reason) = validate(&descriptor, &call).unwrap_err();
    assert_eq!(kind, ErrorKind::InvalidParameterType);
    assert_eq!(reason, "Invalid kind of parameter row from call to sap-table-cell-get-id");
}

#[test]
fn declared_failures_come_before_unknown_parameters() {
    let descriptor = Descriptor::of(Operation::PressButton);
    let call = call("sap-press-button", vec![("id", text("x"))]);
    let (kind, reason) = validate(&descriptor, &call).unwrap_err();
    assert_eq!(kind, ErrorKind::MissingParameter);
    assert_eq!(reason, "Missing parameter target from call to sap-press-button");
}

#[test]
fn first_unknown_parameter_in_call_order_is_reported() {
    let descriptor = Descriptor::of(Operation::Connect);
    let call = call("sap-connect", vec![("b", text("x")), ("a", text("y"))]);
    let (kind, reason) = validate(&descriptor, &call).unwrap_err();
    assert_eq!(kind, ErrorKind::UnknownParameter);
    assert_eq!(reason, "Unknown parameter b in call to sap-connect");
}

#[test]
fn schema_declares_its_own_parameters_only() {
    let schema = and_parameter(
        and_parameter(no_parameters(), "target", "Target", ParameterKind::String),
        "row",
        "Row",
        ParameterKind::Integer,
    );
    assert_eq!(schema.len(), 2);
    assert!(declares_parameter(&schema, "target"));
    assert!(declares_parameter(&schema, "row"));
    assert!(!declares_parameter(&schema, "Row"));
    assert!(!declares_parameter(&schema, ""));
    assert!(!declares_parameter(&no_parameters(), "target"));
}
