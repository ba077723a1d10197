//! The kinds of object that the scripting interface can report.
//!
//! The interface reports the concrete type of every object as text. This module
//! holds the closed table of those types, the key by which each is recognised,
//! and the lineage that each declares.

use crate::text::{str_eq, telltale};
use vstd::prelude::*;

verus! {

/// The closed set of object kinds that the scripting interface can report.
///
/// Each variant is named after the scripting type it stands for. Controls that
/// the interface reports as `GuiShell` are told apart by their sub-type.
#[derive(Clone, Copy, Debug, PartialEq, Eq, Hash, Structural)]
pub enum ComponentKind {
    GuiApplication,
    GuiBarChart,
    GuiBox,
    GuiButton,
    GuiCalendar,
    GuiChart,
    GuiCheckBox,
    GuiColorSelector,
    GuiComboBox,
    GuiComboBoxControl,
    GuiComboBoxEntry,
    GuiComponent,
    GuiConnection,
    GuiContainer,
    GuiContainerShell,
    GuiCTextField,
    GuiCustomControl,
    GuiDialogShell,
    GuiEAIViewer2D,
    GuiEAIViewer3D,
    GuiFrameWindow,
    GuiGOSShell,
    GuiGraphAdapt,
    GuiGridView,
    GuiHTMLViewer,
    GuiInputFieldControl,
    GuiLabel,
    GuiMainWindow,
    GuiMap,
    GuiMenu,
    GuiMenubar,
    GuiModalWindow,
    GuiNetChart,
    GuiOfficeIntegration,
    GuiOkCodeField,
    GuiPasswordField,
    GuiPicture,
    GuiRadioButton,
    GuiSapChart,
    GuiScrollbar,
    GuiScrollContainer,
    GuiSession,
    GuiShell,
    GuiSimpleContainer,
    GuiSplit,
    GuiSplitterContainer,
    GuiStage,
    GuiStatusbar,
    GuiStatusPane,
    GuiTab,
    GuiTableControl,
    GuiTabStrip,
    GuiTextedit,
    GuiTextField,
    GuiTitlebar,
    GuiToolbar,
    GuiTree,
    GuiUserArea,
    GuiVComponent,
    GuiVContainer,
    GuiVHViewSwitch,
    /// A type outside the table. It can still be identified, and nothing else.
    Unclassified,
}

/// The interface lineage of a kind: which family of operations it inherits.
#[derive(Clone, Copy, Debug, PartialEq, Eq, Structural)]
pub enum Lineage {
    /// Not a visual object: it has an identity and nothing to show.
    Plain,
    /// A visual object.
    Visual,
    /// A visual object hosted in a shell control.
    Shell,
    /// A visual object that is a top-level window.
    Window,
}

/// The kinds that are visual objects: every kind but the listed ones.
pub open spec fn is_visual(kind: ComponentKind) -> bool {
    !(kind is GuiApplication || kind is GuiComboBoxEntry || kind is GuiComponent
        || kind is GuiConnection || kind is GuiContainer || kind is GuiScrollbar
        || kind is GuiSession || kind is Unclassified)
}

/// The kinds that are shell controls.
pub open spec fn is_shell(kind: ComponentKind) -> bool {
    kind is GuiBarChart || kind is GuiCalendar || kind is GuiChart
        || kind is GuiColorSelector || kind is GuiComboBoxControl
        || kind is GuiContainerShell || kind is GuiEAIViewer2D || kind is GuiEAIViewer3D
        || kind is GuiGraphAdapt || kind is GuiGridView || kind is GuiHTMLViewer
        || kind is GuiInputFieldControl || kind is GuiMap || kind is GuiNetChart
        || kind is GuiOfficeIntegration || kind is GuiPicture || kind is GuiSapChart
        || kind is GuiShell || kind is GuiSplit || kind is GuiSplitterContainer
        || kind is GuiStage || kind is GuiTextedit || kind is GuiTree
}

/// The kinds that are top-level windows.
pub open spec fn is_window(kind: ComponentKind) -> bool {
    kind is GuiFrameWindow || kind is GuiMainWindow || kind is GuiModalWindow
}

impl ComponentKind {
    /// The text by which the interface tells this kind from the others: the
    /// sub-type of a shell control, the type name of anything else.
    pub open spec fn spec_key(self) -> Seq<char> {
        match self {
            ComponentKind::GuiApplication => "GuiApplication"@,
            ComponentKind::GuiBarChart => "BarChart"@,
            ComponentKind::GuiBox => "GuiBox"@,
            ComponentKind::GuiButton => "GuiButton"@,
            ComponentKind::GuiCalendar => "Calendar"@,
            ComponentKind::GuiChart => "Chart"@,
            ComponentKind::GuiCheckBox => "GuiCheckBox"@,
            ComponentKind::GuiColorSelector => "ColorSelector"@,
            ComponentKind::GuiComboBox => "GuiComboBox"@,
            ComponentKind::GuiComboBoxControl => "ComboBoxControl"@,
            ComponentKind::GuiComboBoxEntry => "GuiComboBoxEntry"@,
            ComponentKind::GuiComponent => "GuiComponent"@,
            ComponentKind::GuiConnection => "GuiConnection"@,
            ComponentKind::GuiContainer => "GuiContainer"@,
            ComponentKind::GuiContainerShell => "ContainerShell"@,
            ComponentKind::GuiCTextField => "GuiCTextField"@,
            ComponentKind::GuiCustomControl => "GuiCustomControl"@,
            ComponentKind::GuiDialogShell => "GuiDialogShell"@,
            ComponentKind::GuiEAIViewer2D => "EAIViewer2D"@,
            ComponentKind::GuiEAIViewer3D => "EAIViewer3D"@,
            ComponentKind::GuiFrameWindow => "GuiFrameWindow"@,
            ComponentKind::GuiGOSShell => "GuiGOSShell"@,
            ComponentKind::GuiGraphAdapt => "GraphAdapt"@,
            ComponentKind::GuiGridView => "GridView"@,
            ComponentKind::GuiHTMLViewer => "HTMLViewer"@,
            ComponentKind::GuiInputFieldControl => "InputFieldControl"@,
            ComponentKind::GuiLabel => "GuiLabel"@,
            ComponentKind::GuiMainWindow => "GuiMainWindow"@,
            ComponentKind::GuiMap => "Map"@,
            ComponentKind::GuiMenu => "GuiMenu"@,
            ComponentKind::GuiMenubar => "GuiMenubar"@,
            ComponentKind::GuiModalWindow => "GuiModalWindow"@,
            ComponentKind::GuiNetChart => "NetChart"@,
            ComponentKind::GuiOfficeIntegration => "OfficeIntegration"@,
            ComponentKind::GuiOkCodeField => "GuiOkCodeField"@,
            ComponentKind::GuiPasswordField => "GuiPasswordField"@,
            ComponentKind::GuiPicture => "Picture"@,
            ComponentKind::GuiRadioButton => "GuiRadioButton"@,
            ComponentKind::GuiSapChart => "SapChart"@,
            ComponentKind::GuiScrollbar => "GuiScrollbar"@,
            ComponentKind::GuiScrollContainer => "GuiScrollContainer"@,
            ComponentKind::GuiSession => "GuiSession"@,
            ComponentKind::GuiShell => "GuiShell"@,
            ComponentKind::GuiSimpleContainer => "GuiSimpleContainer"@,
            ComponentKind::GuiSplit => "Split"@,
            ComponentKind::GuiSplitterContainer => "SplitterContainer"@,
            ComponentKind::GuiStage => "Stage"@,
            ComponentKind::GuiStatusbar => "GuiStatusbar"@,
            ComponentKind::GuiStatusPane => "GuiStatusPane"@,
            ComponentKind::GuiTab => "GuiTab"@,
            ComponentKind::GuiTableControl => "GuiTableControl"@,
            ComponentKind::GuiTabStrip => "GuiTabStrip"@,
            ComponentKind::GuiTextedit => "Textedit"@,
            ComponentKind::GuiTextField => "GuiTextField"@,
            ComponentKind::GuiTitlebar => "GuiTitlebar"@,
            ComponentKind::GuiToolbar => "GuiToolbar"@,
            ComponentKind::GuiTree => "Tree"@,
            ComponentKind::GuiUserArea => "GuiUserArea"@,
            ComponentKind::GuiVComponent => "GuiVComponent"@,
            ComponentKind::GuiVContainer => "GuiVContainer"@,
            ComponentKind::GuiVHViewSwitch => "GuiVHViewSwitch"@,
            ComponentKind::Unclassified => ""@,
        }
    }

    /// The one table of the model: the lineage that each kind declares.
    pub fn lineage(self) -> (lineage: Lineage)
        ensures
            (lineage != Lineage::Plain) == is_visual(self),
            (lineage == Lineage::Shell) == is_shell(self),
            (lineage == Lineage::Window) == is_window(self),
    {
        match self {
            ComponentKind::GuiApplication => Lineage::Plain,
            ComponentKind::GuiBarChart => Lineage::Shell,
            ComponentKind::GuiBox => Lineage::Visual,
            ComponentKind::GuiButton => Lineage::Visual,
            ComponentKind::GuiCalendar => Lineage::Shell,
            ComponentKind::GuiChart => Lineage::Shell,
            ComponentKind::GuiCheckBox => Lineage::Visual,
            ComponentKind::GuiColorSelector => Lineage::Shell,
            ComponentKind::GuiComboBox => Lineage::Visual,
            ComponentKind::GuiComboBoxControl => Lineage::Shell,
            ComponentKind::GuiComboBoxEntry => Lineage::Plain,
            ComponentKind::GuiComponent => Lineage::Plain,
            ComponentKind::GuiConnection => Lineage::Plain,
            ComponentKind::GuiContainer => Lineage::Plain,
            ComponentKind::GuiContainerShell => Lineage::Shell,
            ComponentKind::GuiCTextField => Lineage::Visual,
            ComponentKind::GuiCustomControl => Lineage::Visual,
            ComponentKind::GuiDialogShell => Lineage::Visual,
            ComponentKind::GuiEAIViewer2D => Lineage::Shell,
            ComponentKind::GuiEAIViewer3D => Lineage::Shell,
            ComponentKind::GuiFrameWindow => Lineage::Window,
            ComponentKind::GuiGOSShell => Lineage::Visual,
            ComponentKind::GuiGraphAdapt => Lineage::Shell,
            ComponentKind::GuiGridView => Lineage::Shell,
            ComponentKind::GuiHTMLViewer => Lineage::Shell,
            ComponentKind::GuiInputFieldControl => Lineage::Shell,
            ComponentKind::GuiLabel => Lineage::Visual,
            ComponentKind::GuiMainWindow => Lineage::Window,
            ComponentKind::GuiMap => Lineage::Shell,
            ComponentKind::GuiMenu => Lineage::Visual,
            ComponentKind::GuiMenubar => Lineage::Visual,
            ComponentKind::GuiModalWindow => Lineage::Window,
            ComponentKind::GuiNetChart => Lineage::Shell,
            ComponentKind::GuiOfficeIntegration => Lineage::Shell,
            ComponentKind::GuiOkCodeField => Lineage::Visual,
            ComponentKind::GuiPasswordField => Lineage::Visual,
            ComponentKind::GuiPicture => Lineage::Shell,
            ComponentKind::GuiRadioButton => Lineage::Visual,
            ComponentKind::GuiSapChart => Lineage::Shell,
            ComponentKind::GuiScrollbar => Lineage::Plain,
            ComponentKind::GuiScrollContainer => Lineage::Visual,
            ComponentKind::GuiSession => Lineage::Plain,
            ComponentKind::GuiShell => Lineage::Shell,
            ComponentKind::GuiSimpleContainer => Lineage::Visual,
            ComponentKind::GuiSplit => Lineage::Shell,
            ComponentKind::GuiSplitterContainer => Lineage::Shell,
            ComponentKind::GuiStage => Lineage::Shell,
            ComponentKind::GuiStatusbar => Lineage::Visual,
            ComponentKind::GuiStatusPane => Lineage::Visual,
            ComponentKind::GuiTab => Lineage::Visual,
            ComponentKind::GuiTableControl => Lineage::Visual,
            ComponentKind::GuiTabStrip => Lineage::Visual,
            ComponentKind::GuiTextedit => Lineage::Shell,
            ComponentKind::GuiTextField => Lineage::Visual,
            ComponentKind::GuiTitlebar => Lineage::Visual,
            ComponentKind::GuiToolbar => Lineage::Visual,
            ComponentKind::GuiTree => Lineage::Shell,
            ComponentKind::GuiUserArea => Lineage::Visual,
            ComponentKind::GuiVComponent => Lineage::Visual,
            ComponentKind::GuiVContainer => Lineage::Visual,
            ComponentKind::GuiVHViewSwitch => Lineage::Visual,
            ComponentKind::Unclassified => Lineage::Plain,
        }
    }

    /// The text by which the interface tells this kind from the others.
    pub fn key(self) -> (key: &'static str)
        ensures
            key@ == self.spec_key(),
    {
        match self {
            ComponentKind::GuiApplication => "GuiApplication",
            ComponentKind::GuiBarChart => "BarChart",
            ComponentKind::GuiBox => "GuiBox",
            ComponentKind::GuiButton => "GuiButton",
            ComponentKind::GuiCalendar => "Calendar",
            ComponentKind::GuiChart => "Chart",
            ComponentKind::GuiCheckBox => "GuiCheckBox",
            ComponentKind::GuiColorSelector => "ColorSelector",
            ComponentKind::GuiComboBox => "GuiComboBox",
            ComponentKind::GuiComboBoxControl => "ComboBoxControl",
            ComponentKind::GuiComboBoxEntry => "GuiComboBoxEntry",
            ComponentKind::GuiComponent => "GuiComponent",
            ComponentKind::GuiConnection => "GuiConnection",
            ComponentKind::GuiContainer => "GuiContainer",
            ComponentKind::GuiContainerShell => "ContainerShell",
            ComponentKind::GuiCTextField => "GuiCTextField",
            ComponentKind::GuiCustomControl => "GuiCustomControl",
            ComponentKind::GuiDialogShell => "GuiDialogShell",
            ComponentKind::GuiEAIViewer2D => "EAIViewer2D",
            ComponentKind::GuiEAIViewer3D => "EAIViewer3D",
            ComponentKind::GuiFrameWindow => "GuiFrameWindow",
            ComponentKind::GuiGOSShell => "GuiGOSShell",
            ComponentKind::GuiGraphAdapt => "GraphAdapt",
            ComponentKind::GuiGridView => "GridView",
            ComponentKind::GuiHTMLViewer => "HTMLViewer",
            ComponentKind::GuiInputFieldControl => "InputFieldControl",
            ComponentKind::GuiLabel => "GuiLabel",
            ComponentKind::GuiMainWindow => "GuiMainWindow",
            ComponentKind::GuiMap => "Map",
            ComponentKind::GuiMenu => "GuiMenu",
            ComponentKind::GuiMenubar => "GuiMenubar",
            ComponentKind::GuiModalWindow => "GuiModalWindow",
            ComponentKind::GuiNetChart => "NetChart",
            ComponentKind::GuiOfficeIntegration => "OfficeIntegration",
            ComponentKind::GuiOkCodeField => "GuiOkCodeField",
            ComponentKind::GuiPasswordField => "GuiPasswordField",
            ComponentKind::GuiPicture => "Picture",
            ComponentKind::GuiRadioButton => "GuiRadioButton",
            ComponentKind::GuiSapChart => "SapChart",
            ComponentKind::GuiScrollbar => "GuiScrollbar",
            ComponentKind::GuiScrollContainer => "GuiScrollContainer",
            ComponentKind::GuiSession => "GuiSession",
            ComponentKind::GuiShell => "GuiShell",
            ComponentKind::GuiSimpleContainer => "GuiSimpleContainer",
            ComponentKind::GuiSplit => "Split",
            ComponentKind::GuiSplitterContainer => "SplitterContainer",
            ComponentKind::GuiStage => "Stage",
            ComponentKind::GuiStatusbar => "GuiStatusbar",
            ComponentKind::GuiStatusPane => "GuiStatusPane",
            ComponentKind::GuiTab => "GuiTab",
            ComponentKind::GuiTableControl => "GuiTableControl",
            ComponentKind::GuiTabStrip => "GuiTabStrip",
            ComponentKind::GuiTextedit => "Textedit",
            ComponentKind::GuiTextField => "GuiTextField",
            ComponentKind::GuiTitlebar => "GuiTitlebar",
            ComponentKind::GuiToolbar => "GuiToolbar",
            ComponentKind::GuiTree => "Tree",
            ComponentKind::GuiUserArea => "GuiUserArea",
            ComponentKind::GuiVComponent => "GuiVComponent",
            ComponentKind::GuiVContainer => "GuiVContainer",
            ComponentKind::GuiVHViewSwitch => "GuiVHViewSwitch",
            ComponentKind::Unclassified => "",
        }
    }

    /// Whether objects that are reported as `reported_type` are told apart by
    /// their sub-type. Only for such objects does the sub-type need to be
    /// read.
    pub fn told_apart_by_sub_type(reported_type: &str) -> (by_sub_type: bool)
        ensures
            by_sub_type == (reported_type@ == "GuiShell"@),
    {
        str_eq(reported_type, "GuiShell")
    }

    /// The kind that the interface means by a reported type and sub-type.
    ///
    /// A type outside the table gives `Unclassified`; a sub-type counts only
    /// where the reported type is `GuiShell`.
    pub fn classify(reported_type: &str, sub_type: Option<&str>) -> (kind: ComponentKind)
        ensures
            kind == kind_with_key(
                reported_key(
                    reported_type@,
                    match sub_type {
                        Some(s) => Some(s@),
                        None => None,
                    },
                ),
            ),
    {
        let key: &str = match sub_type {
            Some(s) => if Self::told_apart_by_sub_type(reported_type) {
                s
            } else {
                reported_type
            },
            None => reported_type,
        };
        let kind = Self::with_key(key);
        kind
    }

    /// The kind whose key is `key`, or `Unclassified` where no kind has it.
    pub fn with_key(key: &str) -> (kind: ComponentKind)
        ensures
            kind == kind_with_key(key@),
    {
        let kind =
            if str_eq(key, "GuiApplication") {
                ComponentKind::GuiApplication
            } else if str_eq(key, "BarChart") {
                ComponentKind::GuiBarChart
            } else if str_eq(key, "GuiBox") {
                ComponentKind::GuiBox
            } else if str_eq(key, "GuiButton") {
                ComponentKind::GuiButton
            } else if str_eq(key, "Calendar") {
                ComponentKind::GuiCalendar
            } else if str_eq(key, "Chart") {
                ComponentKind::GuiChart
            } else if str_eq(key, "GuiCheckBox") {
                ComponentKind::GuiCheckBox
            } else if str_eq(key, "ColorSelector") {
                ComponentKind::GuiColorSelector
            } else if str_eq(key, "GuiComboBox") {
                ComponentKind::GuiComboBox
            } else if str_eq(key, "ComboBoxControl") {
                ComponentKind::GuiComboBoxControl
            } else if str_eq(key, "GuiComboBoxEntry") {
                ComponentKind::GuiComboBoxEntry
            } else if str_eq(key, "GuiComponent") {
                ComponentKind::GuiComponent
            } else if str_eq(key, "GuiConnection") {
                ComponentKind::GuiConnection
            } else if str_eq(key, "GuiContainer") {
                ComponentKind::GuiContainer
            } else if str_eq(key, "ContainerShell") {
                ComponentKind::GuiContainerShell
            } else if str_eq(key, "GuiCTextField") {
                ComponentKind::GuiCTextField
            } else if str_eq(key, "GuiCustomControl") {
                ComponentKind::GuiCustomControl
            } else if str_eq(key, "GuiDialogShell") {
                ComponentKind::GuiDialogShell
            } else if str_eq(key, "EAIViewer2D") {
                ComponentKind::GuiEAIViewer2D
            } else if str_eq(key, "EAIViewer3D") {
                ComponentKind::GuiEAIViewer3D
            } else if str_eq(key, "GuiFrameWindow") {
                ComponentKind::GuiFrameWindow
            } else if str_eq(key, "GuiGOSShell") {
                ComponentKind::GuiGOSShell
            } else if str_eq(key, "GraphAdapt") {
                ComponentKind::GuiGraphAdapt
            } else if str_eq(key, "GridView") {
                ComponentKind::GuiGridView
            } else if str_eq(key, "HTMLViewer") {
                ComponentKind::GuiHTMLViewer
            } else if str_eq(key, "InputFieldControl") {
                ComponentKind::GuiInputFieldControl
            } else if str_eq(key, "GuiLabel") {
                ComponentKind::GuiLabel
            } else if str_eq(key, "GuiMainWindow") {
                ComponentKind::GuiMainWindow
            } else if str_eq(key, "Map") {
                ComponentKind::GuiMap
            } else if str_eq(key, "GuiMenu") {
                ComponentKind::GuiMenu
            } else if str_eq(key, "GuiMenubar") {
                ComponentKind::GuiMenubar
            } else if str_eq(key, "GuiModalWindow") {
                ComponentKind::GuiModalWindow
            } else if str_eq(key, "NetChart") {
                ComponentKind::GuiNetChart
            } else if str_eq(key, "OfficeIntegration") {
                ComponentKind::GuiOfficeIntegration
            } else if str_eq(key, "GuiOkCodeField") {
                ComponentKind::GuiOkCodeField
            } else if str_eq(key, "GuiPasswordField") {
                ComponentKind::GuiPasswordField
            } else if str_eq(key, "Picture") {
                ComponentKind::GuiPicture
            } else if str_eq(key, "GuiRadioButton") {
                ComponentKind::GuiRadioButton
            } else if str_eq(key, "SapChart") {
                ComponentKind::GuiSapChart
            } else if str_eq(key, "GuiScrollbar") {
                ComponentKind::GuiScrollbar
            } else if str_eq(key, "GuiScrollContainer") {
                ComponentKind::GuiScrollContainer
            } else if str_eq(key, "GuiSession") {
                ComponentKind::GuiSession
            } else if str_eq(key, "GuiShell") {
                ComponentKind::GuiShell
            } else if str_eq(key, "GuiSimpleContainer") {
                ComponentKind::GuiSimpleContainer
            } else if str_eq(key, "Split") {
                ComponentKind::GuiSplit
            } else if str_eq(key, "SplitterContainer") {
                ComponentKind::GuiSplitterContainer
            } else if str_eq(key, "Stage") {
                ComponentKind::GuiStage
            } else if str_eq(key, "GuiStatusbar") {
                ComponentKind::GuiStatusbar
            } else if str_eq(key, "GuiStatusPane") {
                ComponentKind::GuiStatusPane
            } else if str_eq(key, "GuiTab") {
                ComponentKind::GuiTab
            } else if str_eq(key, "GuiTableControl") {
                ComponentKind::GuiTableControl
            } else if str_eq(key, "GuiTabStrip") {
                ComponentKind::GuiTabStrip
            } else if str_eq(key, "Textedit") {
                ComponentKind::GuiTextedit
            } else if str_eq(key, "GuiTextField") {
                ComponentKind::GuiTextField
            } else if str_eq(key, "GuiTitlebar") {
                ComponentKind::GuiTitlebar
            } else if str_eq(key, "GuiToolbar") {
                ComponentKind::GuiToolbar
            } else if str_eq(key, "Tree") {
                ComponentKind::GuiTree
            } else if str_eq(key, "GuiUserArea") {
                ComponentKind::GuiUserArea
            } else if str_eq(key, "GuiVComponent") {
                ComponentKind::GuiVComponent
            } else if str_eq(key, "GuiVContainer") {
                ComponentKind::GuiVContainer
            } else if str_eq(key, "GuiVHViewSwitch") {
                ComponentKind::GuiVHViewSwitch
            } else {
                ComponentKind::Unclassified
            };
        proof {
            if kind != ComponentKind::Unclassified {
                assert(kind.spec_key() == key@);
                lemma_keys_distinct(kind_with_key(key@), kind);
            } else {
                assert forall|k: ComponentKind| k.spec_key() == key@ implies k
                    == ComponentKind::Unclassified by {}
            }
        }
        kind
    }
}

/// The key under which the interface reports an object: its sub-type where the
/// reported type is `GuiShell` and a sub-type could be read, else its type.
pub open spec fn reported_key(reported_type: Seq<char>, sub_type: Option<Seq<char>>) -> Seq<char> {
    match sub_type {
        Some(s) => if reported_type == "GuiShell"@ {
            s
        } else {
            reported_type
        },
        None => reported_type,
    }
}

/// The kind whose key is `key`, or `Unclassified` where no kind has it.
pub open spec fn kind_with_key(key: Seq<char>) -> ComponentKind {
    if exists|k: ComponentKind| k.spec_key() == key {
        choose|k: ComponentKind| k.spec_key() == key
    } else {
        ComponentKind::Unclassified
    }
}

/// No two kinds share a key, so a reported key names at most one kind.
pub proof fn lemma_keys_distinct(a: ComponentKind, b: ComponentKind)
    requires
        a.spec_key() == b.spec_key(),
    ensures
        a == b,
{
    reveal_strlit("GuiApplication");
    reveal_strlit("BarChart");
    reveal_strlit("GuiBox");
    reveal_strlit("GuiButton");
    reveal_strlit("Calendar");
    reveal_strlit("Chart");
    reveal_strlit("GuiCheckBox");
    reveal_strlit("ColorSelector");
    reveal_strlit("GuiComboBox");
    reveal_strlit("ComboBoxControl");
    reveal_strlit("GuiComboBoxEntry");
    reveal_strlit("GuiComponent");
    reveal_strlit("GuiConnection");
    reveal_strlit("GuiContainer");
    reveal_strlit("ContainerShell");
    reveal_strlit("GuiCTextField");
    reveal_strlit("GuiCustomControl");
    reveal_strlit("GuiDialogShell");
    reveal_strlit("EAIViewer2D");
    reveal_strlit("EAIViewer3D");
    reveal_strlit("GuiFrameWindow");
    reveal_strlit("GuiGOSShell");
    reveal_strlit("GraphAdapt");
    reveal_strlit("GridView");
    reveal_strlit("HTMLViewer");
    reveal_strlit("InputFieldControl");
    reveal_strlit("GuiLabel");
    reveal_strlit("GuiMainWindow");
    reveal_strlit("Map");
    reveal_strlit("GuiMenu");
    reveal_strlit("GuiMenubar");
    reveal_strlit("GuiModalWindow");
    reveal_strlit("NetChart");
    reveal_strlit("OfficeIntegration");
    reveal_strlit("GuiOkCodeField");
    reveal_strlit("GuiPasswordField");
    reveal_strlit("Picture");
    reveal_strlit("GuiRadioButton");
    reveal_strlit("SapChart");
    reveal_strlit("GuiScrollbar");
    reveal_strlit("GuiScrollContainer");
    reveal_strlit("GuiSession");
    reveal_strlit("GuiShell");
    reveal_strlit("GuiSimpleContainer");
    reveal_strlit("Split");
    reveal_strlit("SplitterContainer");
    reveal_strlit("Stage");
    reveal_strlit("GuiStatusbar");
    reveal_strlit("GuiStatusPane");
    reveal_strlit("GuiTab");
    reveal_strlit("GuiTableControl");
    reveal_strlit("GuiTabStrip");
    reveal_strlit("Textedit");
    reveal_strlit("GuiTextField");
    reveal_strlit("GuiTitlebar");
    reveal_strlit("GuiToolbar");
    reveal_strlit("Tree");
    reveal_strlit("GuiUserArea");
    reveal_strlit("GuiVComponent");
    reveal_strlit("GuiVContainer");
    reveal_strlit("GuiVHViewSwitch");
    reveal_strlit("");
    assert(telltale(a.spec_key()) == telltale(b.spec_key()));
}

/// Every kind is found again under its own key.
pub proof fn lemma_key_names_its_kind(kind: ComponentKind)
    ensures
        kind_with_key(kind.spec_key()) == kind,
{
    let chosen = choose|k: ComponentKind| k.spec_key() == kind.spec_key();
    lemma_keys_distinct(chosen, kind);
}

} // verus!
