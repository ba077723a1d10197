use testangel_sap::kind::ComponentKind;
use testangel_sap::session::{expect_connection, Reported, Session};

fn reported(name: &str) -> Reported {
    Reported { reported_type: name.to_string(), sub_type: None }
}

#[test]
fn new_session_is_not_connected() {
    let session = Session::new();
    assert!(!session.is_connected());
    assert_eq!(session.get_session().unwrap_err(), "GuiSession not initialised");
}

#[test]
fn report_is_classified() {
    assert_eq!(reported("GuiSession").kind(), ComponentKind::GuiSession);
    let grid = Reported { reported_type: "GuiShell".to_string(), sub_type: Some("GridView".to_string()) };
    assert_eq!(grid.kind(), ComponentKind::GuiGridView);
    let button = Reported { reported_type: "GuiButton".to_string(), sub_type: Some("GridView".to_string()) };
    assert_eq!(button.kind(), ComponentKind::GuiButton);
}

#[test]
fn application_child_must_be_a_connection() {
    assert!(expect_connection(&reported("GuiConnection")).is_ok());
    let error = expect_connection(&reported("GuiSession")).unwrap_err();
    assert_eq!(error.reason, "Expected GuiConnection, but got something else!");
    let error = expect_connection(&reported("")).unwrap_err();
    assert_eq!(error.reason, "Expected GuiConnection, but got something else!");
}

#[test]
fn connect_stores_the_root_context() {
    let mut session = Session::new();
    assert!(session.connect("/app/con[0]/ses[0]".to_string(), &reported("GuiSession")).is_ok());
    assert!(session.is_connected());
    let root = session.get_session().unwrap();
    assert_eq!(root.address(), "/app/con[0]/ses[0]");
    assert_eq!(root.kind(), ComponentKind::GuiSession);
}

#[test]
fn connect_refuses_a_root_that_is_no_session() {
    let mut session = Session::new();
    let error = session.connect("/app/con[0]/x".to_string(), &reported("GuiMainWindow")).unwrap_err();
    assert_eq!(error.reason, "Expected GuiSession, but got something else!");
    assert!(!session.is_connected());
}

#[test]
fn failed_connect_does_not_poison_the_session() {
    let mut session = Session::new();
    assert!(session.connect("/app/con[0]/x".to_string(), &reported("GuiBox")).is_err());
    assert!(session.connect("/app/con[0]/ses[0]".to_string(), &reported("GuiSession")).is_ok());
    assert!(session.is_connected());
}

#[test]
fn connect_on_a_connected_session_changes_nothing() {
    let mut session = Session::new();
    session.connect("/app/con[0]/ses[0]".to_string(), &reported("GuiSession")).unwrap();
    assert!(session.connect("/app/con[1]/ses[5]".to_string(), &reported("GuiSession")).is_ok());
    assert_eq!(session.get_session().unwrap().address(), "/app/con[0]/ses[0]");
    assert!(session.connect("/app/con[1]/x".to_string(), &reported("GuiBox")).is_ok());
    assert_eq!(session.get_session().unwrap().address(), "/app/con[0]/ses[0]");
}

#[test]
fn reset_discards_the_root_context() {
    let mut session = Session::new();
    session.connect("/app/con[0]/ses[0]".to_string(), &reported("GuiSession")).unwrap();
    session.reset();
    assert!(!session.is_connected());
    session.reset();
    assert!(!session.is_connected());
}

#[test]
fn resolve_needs_a_connection_and_an_object() {
    let mut session = Session::new();
    let found = reported("GuiButton");
    let failure = session.resolve("wnd[0]/btn".to_string(), Some(&found)).unwrap_err();
    assert_eq!(failure.address, "wnd[0]/btn");
    session.connect("/app/con[0]/ses[0]".to_string(), &reported("GuiSession")).unwrap();
    let component = session.resolve("wnd[0]/btn".to_string(), Some(&found)).unwrap();
    assert_eq!(component.address(), "wnd[0]/btn");
    assert_eq!(component.kind(), ComponentKind::GuiButton);
    let failure = session.resolve("wnd[0]/none".to_string(), None).unwrap_err();
    assert_eq!(failure.address, "wnd[0]/none");
}
