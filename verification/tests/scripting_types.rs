use sap_scripting::HasSAPType;
use testangel_sap::kind::{ComponentKind, Lineage};

/// What the scripting crate compares a reported type with when it casts to `T`.
fn cast_key<T: HasSAPType>() -> &'static str {
    T::sap_subtype().unwrap_or_else(|| T::sap_type())
}

fn check<T: HasSAPType>(kind: ComponentKind) {
    assert_eq!(kind.key(), cast_key::<T>());
    assert_eq!(ComponentKind::with_key(cast_key::<T>()), kind);
    assert_eq!(ComponentKind::classify(T::sap_type(), T::sap_subtype()), kind);
    assert_eq!(T::sap_type() == "GuiShell", kind.lineage() == Lineage::Shell);
}

#[test]
fn keys_are_those_of_the_scripting_crate() {
    check::<sap_scripting::GuiApplication>(ComponentKind::GuiApplication);
    check::<sap_scripting::GuiBarChart>(ComponentKind::GuiBarChart);
    check::<sap_scripting::GuiBox>(ComponentKind::GuiBox);
    check::<sap_scripting::GuiButton>(ComponentKind::GuiButton);
    check::<sap_scripting::GuiCalendar>(ComponentKind::GuiCalendar);
    check::<sap_scripting::GuiChart>(ComponentKind::GuiChart);
    check::<sap_scripting::GuiCheckBox>(ComponentKind::GuiCheckBox);
    check::<sap_scripting::GuiColorSelector>(ComponentKind::GuiColorSelector);
    check::<sap_scripting::GuiComboBox>(ComponentKind::GuiComboBox);
    check::<sap_scripting::GuiComboBoxControl>(ComponentKind::GuiComboBoxControl);
    check::<sap_scripting::GuiComboBoxEntry>(ComponentKind::GuiComboBoxEntry);
    check::<sap_scripting::GuiComponent>(ComponentKind::GuiComponent);
    check::<sap_scripting::GuiConnection>(ComponentKind::GuiConnection);
    check::<sap_scripting::GuiContainer>(ComponentKind::GuiContainer);
    check::<sap_scripting::GuiContainerShell>(ComponentKind::GuiContainerShell);
    check::<sap_scripting::GuiCTextField>(ComponentKind::GuiCTextField);
    check::<sap_scripting::GuiCustomControl>(ComponentKind::GuiCustomControl);
    check::<sap_scripting::GuiDialogShell>(ComponentKind::GuiDialogShell);
    check::<sap_scripting::GuiEAIViewer2D>(ComponentKind::GuiEAIViewer2D);
    check::<sap_scripting::GuiEAIViewer3D>(ComponentKind::GuiEAIViewer3D);
    check::<sap_scripting::GuiFrameWindow>(ComponentKind::GuiFrameWindow);
    check::<sap_scripting::GuiGOSShell>(ComponentKind::GuiGOSShell);
    check::<sap_scripting::GuiGraphAdapt>(ComponentKind::GuiGraphAdapt);
    check::<sap_scripting::GuiGridView>(ComponentKind::GuiGridView);
    check::<sap_scripting::GuiHTMLViewer>(ComponentKind::GuiHTMLViewer);
    check::<sap_scripting::GuiInputFieldControl>(ComponentKind::GuiInputFieldControl);
    check::<sap_scripting::GuiLabel>(ComponentKind::GuiLabel);
    check::<sap_scripting::GuiMainWindow>(ComponentKind::GuiMainWindow);
    check::<sap_scripting::GuiMap>(ComponentKind::GuiMap);
    check::<sap_scripting::GuiMenu>(ComponentKind::GuiMenu);
    check::<sap_scripting::GuiMenubar>(ComponentKind::GuiMenubar);
    check::<sap_scripting::GuiModalWindow>(ComponentKind::GuiModalWindow);
    check::<sap_scripting::GuiNetChart>(ComponentKind::GuiNetChart);
    check::<sap_scripting::GuiOfficeIntegration>(ComponentKind::GuiOfficeIntegration);
    check::<sap_scripting::GuiOkCodeField>(ComponentKind::GuiOkCodeField);
    check::<sap_scripting::GuiPasswordField>(ComponentKind::GuiPasswordField);
    check::<sap_scripting::GuiPicture>(ComponentKind::GuiPicture);
    check::<sap_scripting::GuiRadioButton>(ComponentKind::GuiRadioButton);
    check::<sap_scripting::GuiSapChart>(ComponentKind::GuiSapChart);
    check::<sap_scripting::GuiScrollbar>(ComponentKind::GuiScrollbar);
    check::<sap_scripting::GuiScrollContainer>(ComponentKind::GuiScrollContainer);
    check::<sap_scripting::GuiSession>(ComponentKind::GuiSession);
    check::<sap_scripting::GuiShell>(ComponentKind::GuiShell);
    check::<sap_scripting::GuiSimpleContainer>(ComponentKind::GuiSimpleContainer);
    check::<sap_scripting::GuiSplit>(ComponentKind::GuiSplit);
    check::<sap_scripting::GuiSplitterContainer>(ComponentKind::GuiSplitterContainer);
    check::<sap_scripting::GuiStage>(ComponentKind::GuiStage);
    check::<sap_scripting::GuiStatusbar>(ComponentKind::GuiStatusbar);
    check::<sap_scripting::GuiStatusPane>(ComponentKind::GuiStatusPane);
    check::<sap_scripting::GuiTab>(ComponentKind::GuiTab);
    check::<sap_scripting::GuiTableControl>(ComponentKind::GuiTableControl);
    check::<sap_scripting::GuiTabStrip>(ComponentKind::GuiTabStrip);
    check::<sap_scripting::GuiTextedit>(ComponentKind::GuiTextedit);
    check::<sap_scripting::GuiTextField>(ComponentKind::GuiTextField);
    check::<sap_scripting::GuiTitlebar>(ComponentKind::GuiTitlebar);
    check::<sap_scripting::GuiToolbar>(ComponentKind::GuiToolbar);
    check::<sap_scripting::GuiTree>(ComponentKind::GuiTree);
    check::<sap_scripting::GuiUserArea>(ComponentKind::GuiUserArea);
    check::<sap_scripting::GuiVComponent>(ComponentKind::GuiVComponent);
    check::<sap_scripting::GuiVContainer>(ComponentKind::GuiVContainer);
    check::<sap_scripting::GuiVHViewSwitch>(ComponentKind::GuiVHViewSwitch);
}
