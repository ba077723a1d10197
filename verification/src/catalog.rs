//! The catalogue of instructions: what each is called, what it takes and
//! gives, and how the engine carries it out.

use crate::capability::Capability;
use crate::descriptor::{
    and_parameter,
    no_parameters,
    parameter,
    parameter_models,
    ParameterModel,
    ParameterSpec,
};
use crate::text::{join3, str_eq, telltale};
use crate::values::ParameterKind;
use vstd::prelude::*;

verus! {

/// The operations that the engine can carry out, one for each instruction.
#[derive(Clone, Copy, Debug, PartialEq, Eq, Hash, Structural)]
pub enum Operation {
    /// Connect to an SAP instance that the user already has open.
    Connect,
    /// Run a transaction.
    RunTransaction,
    /// Take a screenshot of a SAP window.
    Screenshot,
    /// Check if an element exists and returns a boolean.
    DoesElementExist,
    /// Return the type string of the component.
    ComponentType,
    /// Highlight an element by drawing a red box around it.
    VisualiseElement,
    /// Set the value of a fields 'Text' value.
    SetTextValue,
    /// Get the value of a fields 'Text' value.
    GetTextValue,
    /// Send a keypress to the SAP system.
    SendKey,
    /// Press a button in the UI.
    PressButton,
    /// Set the state of a checkbox in the UI.
    SetCheckbox,
    /// Set the key (selected item) of the combo box.
    SetComboBoxKey,
    /// Get the number of rows in a grid.
    GridGetRowCount,
    /// Click or double click a cell.
    GridClickCell,
    /// This function adds the specified column to the collection of the selected columns.
    GridSelectColumn,
    /// This function removes the specified column from the collection of the selected columns.
    GridDeselectColumn,
    /// Calling contextMenu emulates the context menu request.
    GridContextMenu,
    /// Get the value of a grid cell.
    GridGetCellValue,
    /// Select an item from the control's context menu.
    ShellSelectContextMenuItem,
    /// Get the type of message displayed in the status bar shown at the bottom of the SAP window.
    GetStatusbarState,
    /// Select a tab in a tab panel.
    TabSelect,
    /// Get the number of rows in a table.
    TableGetRowCount,
    /// Select a row in a table.
    TableRowSelect,
    /// Get the ID of a cell that can be fed into another function's 'Target' parameter.
    TableCellGetId,
}

/// Where an operation finds the object that it acts on.
#[derive(Clone, Copy, Debug, PartialEq, Eq, Structural)]
pub enum TargetSource {
    /// It acts on no object.
    Nothing,
    /// It acts on the root context of the session.
    Root,
    /// It acts on the object at the address in its `target` parameter.
    Parameter,
    /// It acts on the main window, whatever its parameters say.
    MainWindow,
}

/// The step of a leaf operation that failed. Most operations have one step.
#[derive(Clone, Copy, Debug, PartialEq, Eq, Structural)]
pub enum LeafStep {
    First,
    Second,
}

/// The address of the main window.
pub open spec fn main_window() -> Seq<char> {
    "wnd[0]"@
}

/// The name of the parameter that holds the address of an operation's target.
pub open spec fn target_parameter() -> Seq<char> {
    "target"@
}

impl Operation {
    /// The stable identifier of the instruction.
    pub open spec fn spec_id(self) -> Seq<char> {
        match self {
            Operation::Connect => "sap-connect"@,
            Operation::RunTransaction => "sap-run-transaction"@,
            Operation::Screenshot => "sap-screenshot"@,
            Operation::DoesElementExist => "sap-does-element-exist"@,
            Operation::ComponentType => "sap-component-type"@,
            Operation::VisualiseElement => "sap-visualise-element"@,
            Operation::SetTextValue => "sap-set-text-value"@,
            Operation::GetTextValue => "sap-get-text-value"@,
            Operation::SendKey => "sap-send-key"@,
            Operation::PressButton => "sap-press-button"@,
            Operation::SetCheckbox => "sap-set-checkbox"@,
            Operation::SetComboBoxKey => "sap-set-combobox-key"@,
            Operation::GridGetRowCount => "sap-grid-get-row-count"@,
            Operation::GridClickCell => "sap-grid-click-cell"@,
            Operation::GridSelectColumn => "sap-grid-select-column"@,
            Operation::GridDeselectColumn => "sap-grid-deselect-column"@,
            Operation::GridContextMenu => "sap-grid-context-menu"@,
            Operation::GridGetCellValue => "sap-grid-get-cell-value"@,
            Operation::ShellSelectContextMenuItem => "sap-shell-select-context-menu-item"@,
            Operation::GetStatusbarState => "sap-get-statusbar-state"@,
            Operation::TabSelect => "sap-tab-select"@,
            Operation::TableGetRowCount => "sap-table-get-row-count"@,
            Operation::TableRowSelect => "sap-table-row-select"@,
            Operation::TableCellGetId => "sap-table-cell-get-id"@,
        }
    }

    /// The name under which the instruction is shown.
    pub open spec fn spec_name(self) -> Seq<char> {
        match self {
            Operation::Connect => "Connect to Open Instance"@,
            Operation::RunTransaction => "Run Transaction"@,
            Operation::Screenshot => "Screenshot as Evidence"@,
            Operation::DoesElementExist => "Does Element Exist"@,
            Operation::ComponentType => "Component Type"@,
            Operation::VisualiseElement => "Highlight Element"@,
            Operation::SetTextValue => "Text Value: Set"@,
            Operation::GetTextValue => "Text Value: Get"@,
            Operation::SendKey => "Send Key"@,
            Operation::PressButton => "Press UI Button"@,
            Operation::SetCheckbox => "Checkbox: Set Value"@,
            Operation::SetComboBoxKey => "Combo Box: Set Key"@,
            Operation::GridGetRowCount => "Grid: Get Row Count"@,
            Operation::GridClickCell => "Grid: Click or Double Click Cell"@,
            Operation::GridSelectColumn => "Grid: Select Column"@,
            Operation::GridDeselectColumn => "Grid: Deselect Column"@,
            Operation::GridContextMenu => "Grid: Context Menu"@,
            Operation::GridGetCellValue => "Grid: Get Cell Value"@,
            Operation::ShellSelectContextMenuItem => "Shell: Select Context Menu Item"@,
            Operation::GetStatusbarState => "Status Bar: Get State"@,
            Operation::TabSelect => "Tab: Select"@,
            Operation::TableGetRowCount => "Table: Get Row Count"@,
            Operation::TableRowSelect => "Table: Row: Select"@,
            Operation::TableCellGetId => "Table: Get ID of Cell"@,
        }
    }

    /// What the instruction does, in a sentence or two.
    pub open spec fn spec_description(self) -> Seq<char> {
        match self {
            Operation::Connect => "Connect to an SAP instance that the user already has open. If they have multiple open, this will give access to any of the open windows (although most instructions use the main window). This will do nothing if we already hold a connection."@,
            Operation::RunTransaction => "Run a transaction."@,
            Operation::Screenshot => "Take a screenshot of a SAP window"@,
            Operation::DoesElementExist => "Check if an element exists and returns a boolean."@,
            Operation::ComponentType => "Return the type string of the component."@,
            Operation::VisualiseElement => "Highlight an element by drawing a red box around it. Useful just before screenshotting."@,
            Operation::SetTextValue => "Set the value of a fields 'Text' value. The behaviour of this differs depending on the type of field."@,
            Operation::GetTextValue => "Get the value of a fields 'Text' value. The behaviour of this differs depending on the type of field."@,
            Operation::SendKey => "Send a keypress to the SAP system."@,
            Operation::PressButton => "Press a button in the UI."@,
            Operation::SetCheckbox => "Set the state of a checkbox in the UI."@,
            Operation::SetComboBoxKey => "Set the key (selected item) of the combo box."@,
            Operation::GridGetRowCount => "Get the number of rows in a grid."@,
            Operation::GridClickCell => "Click or double click a cell."@,
            Operation::GridSelectColumn => "This function adds the specified column to the collection of the selected columns."@,
            Operation::GridDeselectColumn => "This function removes the specified column from the collection of the selected columns."@,
            Operation::GridContextMenu => "Calling contextMenu emulates the context menu request."@,
            Operation::GridGetCellValue => "Get the value of a grid cell."@,
            Operation::ShellSelectContextMenuItem => "Select an item from the control's context menu."@,
            Operation::GetStatusbarState => "Get the type of message displayed in the status bar shown at the bottom of the SAP window. This could be 'S' (Success), 'W' (Warning), 'E' (Error), 'A' (Abort), 'I' (Information) or '' (No Status)."@,
            Operation::TabSelect => "Select a tab in a tab panel."@,
            Operation::TableGetRowCount => "Get the number of rows in a table."@,
            Operation::TableRowSelect => "Select a row in a table."@,
            Operation::TableCellGetId => "Get the ID of a cell that can be fed into another function's 'Target' parameter."@,
        }
    }

    /// The parameters that the instruction takes, in order.
    pub open spec fn spec_parameters(self) -> Seq<ParameterModel> {
        match self {
            Operation::Connect => Seq::empty(),
            Operation::RunTransaction => Seq::empty().push(
                parameter("tcode"@, "Transaction Code"@, ParameterKind::String),
            ),
            Operation::Screenshot => Seq::empty().push(
                parameter("label"@, "Evidence Label"@, ParameterKind::String),
            ).push(
                parameter("target"@, "Target (usually 'wnd[0]')"@, ParameterKind::String),
            ),
            Operation::DoesElementExist => Seq::empty().push(
                parameter("target"@, "Target"@, ParameterKind::String),
            ),
            Operation::ComponentType => Seq::empty().push(
                parameter("target"@, "Target"@, ParameterKind::String),
            ),
            Operation::VisualiseElement => Seq::empty().push(
                parameter("target"@, "Target"@, ParameterKind::String),
            ),
            Operation::SetTextValue => Seq::empty().push(
                parameter("target"@, "Target"@, ParameterKind::String),
            ).push(
                parameter("value"@, "Value"@, ParameterKind::String),
            ),
            Operation::GetTextValue => Seq::empty().push(
                parameter("target"@, "Target"@, ParameterKind::String),
            ),
            Operation::SendKey => Seq::empty().push(
                parameter("key"@, "Key (VKey)"@, ParameterKind::Integer),
            ),
            Operation::PressButton => Seq::empty().push(
                parameter("target"@, "Target"@, ParameterKind::String),
            ),
            Operation::SetCheckbox => Seq::empty().push(
                parameter("target"@, "Target"@, ParameterKind::String),
            ).push(
                parameter("state"@, "Checked"@, ParameterKind::Boolean),
            ),
            Operation::SetComboBoxKey => Seq::empty().push(
                parameter("target"@, "Target"@, ParameterKind::String),
            ).push(
                parameter("key"@, "Key"@, ParameterKind::String),
            ),
            Operation::GridGetRowCount => Seq::empty().push(
                parameter("target"@, "Target Grid"@, ParameterKind::String),
            ),
            Operation::GridClickCell => Seq::empty().push(
                parameter("target"@, "Target Grid"@, ParameterKind::String),
            ).push(
                parameter("row"@, "Row"@, ParameterKind::Integer),
            ).push(
                parameter("col"@, "Column"@, ParameterKind::String),
            ).push(
                parameter("double"@, "Double click"@, ParameterKind::Boolean),
            ),
            Operation::GridSelectColumn => Seq::empty().push(
                parameter("target"@, "Target Grid"@, ParameterKind::String),
            ).push(
                parameter("column"@, "Column"@, ParameterKind::String),
            ),
            Operation::GridDeselectColumn => Seq::empty().push(
                parameter("target"@, "Target Grid"@, ParameterKind::String),
            ).push(
                parameter("column"@, "Column"@, ParameterKind::String),
            ),
            Operation::GridContextMenu => Seq::empty().push(
                parameter("target"@, "Target Grid"@, ParameterKind::String),
            ),
            Operation::GridGetCellValue => Seq::empty().push(
                parameter("target"@, "Target Grid"@, ParameterKind::String),
            ).push(
                parameter("row"@, "Row"@, ParameterKind::Integer),
            ).push(
                parameter("col"@, "Column"@, ParameterKind::String),
            ),
            Operation::ShellSelectContextMenuItem => Seq::empty().push(
                parameter("target"@, "Target"@, ParameterKind::String),
            ).push(
                parameter("function_code"@, "Function Code"@, ParameterKind::String),
            ),
            Operation::GetStatusbarState => Seq::empty().push(
                parameter("target"@, "Target (usually 'wnd[0]/sbar')"@, ParameterKind::String),
            ),
            Operation::TabSelect => Seq::empty().push(
                parameter("target"@, "Target Tab"@, ParameterKind::String),
            ),
            Operation::TableGetRowCount => Seq::empty().push(
                parameter("target"@, "Target"@, ParameterKind::String),
            ),
            Operation::TableRowSelect => Seq::empty().push(
                parameter("target"@, "Target"@, ParameterKind::String),
            ).push(
                parameter("row"@, "Row"@, ParameterKind::Integer),
            ),
            Operation::TableCellGetId => Seq::empty().push(
                parameter("target"@, "Target"@, ParameterKind::String),
            ).push(
                parameter("row"@, "Row"@, ParameterKind::Integer),
            ).push(
                parameter("column"@, "Column"@, ParameterKind::Integer),
            ),
        }
    }

    /// The values that the instruction gives back, in order.
    pub open spec fn spec_outputs(self) -> Seq<ParameterModel> {
        match self {
            Operation::Connect => Seq::empty(),
            Operation::RunTransaction => Seq::empty(),
            Operation::Screenshot => Seq::empty(),
            Operation::DoesElementExist => Seq::empty().push(
                parameter("exists"@, "Exists"@, ParameterKind::Boolean),
            ),
            Operation::ComponentType => Seq::empty().push(
                parameter("type"@, "Type"@, ParameterKind::String),
            ),
            Operation::VisualiseElement => Seq::empty(),
            Operation::SetTextValue => Seq::empty(),
            Operation::GetTextValue => Seq::empty().push(
                parameter("value"@, "Value"@, ParameterKind::String),
            ),
            Operation::SendKey => Seq::empty(),
            Operation::PressButton => Seq::empty(),
            Operation::SetCheckbox => Seq::empty(),
            Operation::SetComboBoxKey => Seq::empty(),
            Operation::GridGetRowCount => Seq::empty().push(
                parameter("value"@, "Number of rows"@, ParameterKind::Integer),
            ),
            Operation::GridClickCell => Seq::empty(),
            Operation::GridSelectColumn => Seq::empty(),
            Operation::GridDeselectColumn => Seq::empty(),
            Operation::GridContextMenu => Seq::empty(),
            Operation::GridGetCellValue => Seq::empty().push(
                parameter("value"@, "Value"@, ParameterKind::String),
            ),
            Operation::ShellSelectContextMenuItem => Seq::empty(),
            Operation::GetStatusbarState => Seq::empty().push(
                parameter("status"@, "Status"@, ParameterKind::String),
            ),
            Operation::TabSelect => Seq::empty(),
            Operation::TableGetRowCount => Seq::empty().push(
                parameter("rows"@, "Rows"@, ParameterKind::Integer),
            ),
            Operation::TableRowSelect => Seq::empty(),
            Operation::TableCellGetId => Seq::empty().push(
                parameter("id"@, "Target ID"@, ParameterKind::String),
            ),
        }
    }

    /// Where the operation finds the object that it acts on.
    pub open spec fn spec_target(self) -> TargetSource {
        match self {
            Operation::Connect => TargetSource::Nothing,
            Operation::RunTransaction => TargetSource::Root,
            Operation::Screenshot => TargetSource::Parameter,
            Operation::DoesElementExist => TargetSource::Parameter,
            Operation::ComponentType => TargetSource::Parameter,
            Operation::VisualiseElement => TargetSource::Parameter,
            Operation::SetTextValue => TargetSource::Parameter,
            Operation::GetTextValue => TargetSource::Parameter,
            Operation::SendKey => TargetSource::MainWindow,
            Operation::PressButton => TargetSource::Parameter,
            Operation::SetCheckbox => TargetSource::Parameter,
            Operation::SetComboBoxKey => TargetSource::Parameter,
            Operation::GridGetRowCount => TargetSource::Parameter,
            Operation::GridClickCell => TargetSource::Parameter,
            Operation::GridSelectColumn => TargetSource::Parameter,
            Operation::GridDeselectColumn => TargetSource::Parameter,
            Operation::GridContextMenu => TargetSource::Parameter,
            Operation::GridGetCellValue => TargetSource::Parameter,
            Operation::ShellSelectContextMenuItem => TargetSource::Parameter,
            Operation::GetStatusbarState => TargetSource::Parameter,
            Operation::TabSelect => TargetSource::Parameter,
            Operation::TableGetRowCount => TargetSource::Parameter,
            Operation::TableRowSelect => TargetSource::Parameter,
            Operation::TableCellGetId => TargetSource::Parameter,
        }
    }

    /// The capability that the operation needs of its target, if it needs one.
    pub open spec fn spec_capability(self) -> Option<Capability> {
        match self {
            Operation::Connect => None,
            Operation::RunTransaction => Some(Capability::Transactional),
            Operation::Screenshot => Some(Capability::Windowed),
            Operation::DoesElementExist => None,
            Operation::ComponentType => Some(Capability::Identifiable),
            Operation::VisualiseElement => Some(Capability::Visualizable),
            Operation::SetTextValue => Some(Capability::TextValued),
            Operation::GetTextValue => Some(Capability::TextValued),
            Operation::SendKey => Some(Capability::Windowed),
            Operation::PressButton => Some(Capability::Clickable),
            Operation::SetCheckbox => Some(Capability::Checkable),
            Operation::SetComboBoxKey => Some(Capability::KeyedSelectable),
            Operation::GridGetRowCount => Some(Capability::GridLike),
            Operation::GridClickCell => Some(Capability::GridLike),
            Operation::GridSelectColumn => Some(Capability::GridLike),
            Operation::GridDeselectColumn => Some(Capability::GridLike),
            Operation::GridContextMenu => Some(Capability::GridLike),
            Operation::GridGetCellValue => Some(Capability::GridLike),
            Operation::ShellSelectContextMenuItem => Some(Capability::ShellLike),
            Operation::GetStatusbarState => Some(Capability::StatusReporting),
            Operation::TabSelect => Some(Capability::TabSelectable),
            Operation::TableGetRowCount => Some(Capability::TableLike),
            Operation::TableRowSelect => Some(Capability::TableLike),
            Operation::TableCellGetId => Some(Capability::TableLike),
        }
    }

    /// What is reported where no object is found at `address`.
    pub open spec fn spec_not_found(self, address: Seq<char>) -> Seq<char> {
        match self {
            Operation::Connect => ""@,
            Operation::RunTransaction => ""@,
            Operation::Screenshot => "Couldn't find "@ + address + "."@,
            Operation::DoesElementExist => ""@,
            Operation::ComponentType => "Couldn't find "@ + address + "."@,
            Operation::VisualiseElement => "Couldn't find "@ + address + "."@,
            Operation::SetTextValue => "Couldn't find "@ + address + "."@,
            Operation::GetTextValue => "Couldn't find "@ + address + "."@,
            Operation::SendKey => "SAP window couldn't be requested."@,
            Operation::PressButton => "Failed to find component"@,
            Operation::SetCheckbox => "Failed to find component"@,
            Operation::SetComboBoxKey => "Couldn't find "@ + address + "."@,
            Operation::GridGetRowCount => "Failed to find grid"@,
            Operation::GridClickCell => "Failed to find grid"@,
            Operation::GridSelectColumn => "Failed to find grid"@,
            Operation::GridDeselectColumn => "Failed to find grid"@,
            Operation::GridContextMenu => "Failed to find grid"@,
            Operation::GridGetCellValue => "Failed to find grid"@,
            Operation::ShellSelectContextMenuItem => "Failed to find grid"@,
            Operation::GetStatusbarState => "Failed to find status bar"@,
            Operation::TabSelect => "Failed to find tab"@,
            Operation::TableGetRowCount => "Failed to find table"@,
            Operation::TableRowSelect => "Failed to find table"@,
            Operation::TableCellGetId => "Failed to find table"@,
        }
    }

    /// What is reported where the target lacks the capability.
    pub open spec fn spec_unsupported(self) -> Seq<char> {
        match self {
            Operation::Connect => ""@,
            Operation::RunTransaction => ""@,
            Operation::Screenshot => "No valid target to screenshot."@,
            Operation::DoesElementExist => ""@,
            Operation::ComponentType => ""@,
            Operation::VisualiseElement => "No valid target to visualise."@,
            Operation::SetTextValue => "No valid target to set text."@,
            Operation::GetTextValue => "No valid target to get text."@,
            Operation::SendKey => "Window invalid"@,
            Operation::PressButton => "Tried to press a non-button"@,
            Operation::SetCheckbox => "Tried to check a non-checkbox"@,
            Operation::SetComboBoxKey => "No valid target to set combo box key"@,
            Operation::GridGetRowCount => "The grid was invalid"@,
            Operation::GridClickCell => "The grid was invalid"@,
            Operation::GridSelectColumn => "The grid was invalid"@,
            Operation::GridDeselectColumn => "The grid was invalid"@,
            Operation::GridContextMenu => "The grid was invalid"@,
            Operation::GridGetCellValue => "The grid was invalid"@,
            Operation::ShellSelectContextMenuItem => "The shell was invalid"@,
            Operation::GetStatusbarState => "The statusbar was invalid"@,
            Operation::TabSelect => "The tab was invalid"@,
            Operation::TableGetRowCount => "The table was invalid"@,
            Operation::TableRowSelect => "The table was invalid"@,
            Operation::TableCellGetId => "The table was invalid"@,
        }
    }

    /// What is put before the driver's own words where a step of the leaf operation fails. `double` is the instruction's `double` parameter, where it has one.
    pub open spec fn spec_failure_prefix(self, step: LeafStep, double: bool) -> Seq<char> {
        match self {
            Operation::Connect => ""@,
            Operation::RunTransaction => "Couldn't execute transaction. "@,
            Operation::Screenshot => match step {
                LeafStep::First => "Can't screenshot: "@,
                LeafStep::Second => "Failed to read screenshot: "@,
            },
            Operation::DoesElementExist => ""@,
            Operation::ComponentType => ""@,
            Operation::VisualiseElement => "Failed to visualize: "@,
            Operation::SetTextValue => "Can't set text: "@,
            Operation::GetTextValue => "Can't get text: "@,
            Operation::SendKey => "Couldn't send VKey: "@,
            Operation::PressButton => "Couldn't press button: "@,
            Operation::SetCheckbox => "Couldn't set checkbox: "@,
            Operation::SetComboBoxKey => "Can't set combo box key: "@,
            Operation::GridGetRowCount => ""@,
            Operation::GridClickCell => match step {
                LeafStep::First => "Couldn't select cell in grid: "@,
                LeafStep::Second => if double {
                    "The grid couldn't be double clicked: "@
                } else {
                    "The grid couldn't be clicked: "@
                },
            },
            Operation::GridSelectColumn => "The column couldn't be selected: "@,
            Operation::GridDeselectColumn => "The column couldn't be deselected: "@,
            Operation::GridContextMenu => "Couldn't open context menu: "@,
            Operation::GridGetCellValue => ""@,
            Operation::ShellSelectContextMenuItem => "Couldn't select context menu item: "@,
            Operation::GetStatusbarState => ""@,
            Operation::TabSelect => ""@,
            Operation::TableGetRowCount => ""@,
            Operation::TableRowSelect => match step {
                LeafStep::First => "Failed to get table row: "@,
                LeafStep::Second => "Failed to select row: "@,
            },
            Operation::TableCellGetId => match step {
                LeafStep::First => "Failed to get table cell: "@,
                LeafStep::Second => ""@,
            },
        }
    }

    /// The stable identifier of the instruction.
    pub fn id(self) -> (id: &'static str)
        ensures
            id@ == self.spec_id(),
    {
        match self {
            Operation::Connect => "sap-connect",
            Operation::RunTransaction => "sap-run-transaction",
            Operation::Screenshot => "sap-screenshot",
            Operation::DoesElementExist => "sap-does-element-exist",
            Operation::ComponentType => "sap-component-type",
            Operation::VisualiseElement => "sap-visualise-element",
            Operation::SetTextValue => "sap-set-text-value",
            Operation::GetTextValue => "sap-get-text-value",
            Operation::SendKey => "sap-send-key",
            Operation::PressButton => "sap-press-button",
            Operation::SetCheckbox => "sap-set-checkbox",
            Operation::SetComboBoxKey => "sap-set-combobox-key",
            Operation::GridGetRowCount => "sap-grid-get-row-count",
            Operation::GridClickCell => "sap-grid-click-cell",
            Operation::GridSelectColumn => "sap-grid-select-column",
            Operation::GridDeselectColumn => "sap-grid-deselect-column",
            Operation::GridContextMenu => "sap-grid-context-menu",
            Operation::GridGetCellValue => "sap-grid-get-cell-value",
            Operation::ShellSelectContextMenuItem => "sap-shell-select-context-menu-item",
            Operation::GetStatusbarState => "sap-get-statusbar-state",
            Operation::TabSelect => "sap-tab-select",
            Operation::TableGetRowCount => "sap-table-get-row-count",
            Operation::TableRowSelect => "sap-table-row-select",
            Operation::TableCellGetId => "sap-table-cell-get-id",
        }
    }

    /// The name under which the instruction is shown.
    pub fn name(self) -> (name: &'static str)
        ensures
            name@ == self.spec_name(),
    {
        match self {
            Operation::Connect => "Connect to Open Instance",
            Operation::RunTransaction => "Run Transaction",
            Operation::Screenshot => "Screenshot as Evidence",
            Operation::DoesElementExist => "Does Element Exist",
            Operation::ComponentType => "Component Type",
            Operation::VisualiseElement => "Highlight Element",
            Operation::SetTextValue => "Text Value: Set",
            Operation::GetTextValue => "Text Value: Get",
            Operation::SendKey => "Send Key",
            Operation::PressButton => "Press UI Button",
            Operation::SetCheckbox => "Checkbox: Set Value",
            Operation::SetComboBoxKey => "Combo Box: Set Key",
            Operation::GridGetRowCount => "Grid: Get Row Count",
            Operation::GridClickCell => "Grid: Click or Double Click Cell",
            Operation::GridSelectColumn => "Grid: Select Column",
            Operation::GridDeselectColumn => "Grid: Deselect Column",
            Operation::GridContextMenu => "Grid: Context Menu",
            Operation::GridGetCellValue => "Grid: Get Cell Value",
            Operation::ShellSelectContextMenuItem => "Shell: Select Context Menu Item",
            Operation::GetStatusbarState => "Status Bar: Get State",
            Operation::TabSelect => "Tab: Select",
            Operation::TableGetRowCount => "Table: Get Row Count",
            Operation::TableRowSelect => "Table: Row: Select",
            Operation::TableCellGetId => "Table: Get ID of Cell",
        }
    }

    /// What the instruction does, in a sentence or two.
    pub fn description(self) -> (description: &'static str)
        ensures
            description@ == self.spec_description(),
    {
        match self {
            Operation::Connect => "Connect to an SAP instance that the user already has open. If they have multiple open, this will give access to any of the open windows (although most instructions use the main window). This will do nothing if we already hold a connection.",
            Operation::RunTransaction => "Run a transaction.",
            Operation::Screenshot => "Take a screenshot of a SAP window",
            Operation::DoesElementExist => "Check if an element exists and returns a boolean.",
            Operation::ComponentType => "Return the type string of the component.",
            Operation::VisualiseElement => "Highlight an element by drawing a red box around it. Useful just before screenshotting.",
            Operation::SetTextValue => "Set the value of a fields 'Text' value. The behaviour of this differs depending on the type of field.",
            Operation::GetTextValue => "Get the value of a fields 'Text' value. The behaviour of this differs depending on the type of field.",
            Operation::SendKey => "Send a keypress to the SAP system.",
            Operation::PressButton => "Press a button in the UI.",
            Operation::SetCheckbox => "Set the state of a checkbox in the UI.",
            Operation::SetComboBoxKey => "Set the key (selected item) of the combo box.",
            Operation::GridGetRowCount => "Get the number of rows in a grid.",
            Operation::GridClickCell => "Click or double click a cell.",
            Operation::GridSelectColumn => "This function adds the specified column to the collection of the selected columns.",
            Operation::GridDeselectColumn => "This function removes the specified column from the collection of the selected columns.",
            Operation::GridContextMenu => "Calling contextMenu emulates the context menu request.",
            Operation::GridGetCellValue => "Get the value of a grid cell.",
            Operation::ShellSelectContextMenuItem => "Select an item from the control's context menu.",
            Operation::GetStatusbarState => "Get the type of message displayed in the status bar shown at the bottom of the SAP window. This could be 'S' (Success), 'W' (Warning), 'E' (Error), 'A' (Abort), 'I' (Information) or '' (No Status).",
            Operation::TabSelect => "Select a tab in a tab panel.",
            Operation::TableGetRowCount => "Get the number of rows in a table.",
            Operation::TableRowSelect => "Select a row in a table.",
            Operation::TableCellGetId => "Get the ID of a cell that can be fed into another function's 'Target' parameter.",
        }
    }

    /// The parameters that the instruction takes, in order.
    pub fn parameters(self) -> (parameters: Vec<ParameterSpec>)
        ensures
            parameter_models(parameters@) == self.spec_parameters(),
    {
        match self {
            Operation::Connect => no_parameters(),
            Operation::RunTransaction => and_parameter(
                no_parameters(),
                "tcode",
                "Transaction Code",
                ParameterKind::String,
            ),
            Operation::Screenshot => and_parameter(
                and_parameter(
                no_parameters(),
                "label",
                "Evidence Label",
                ParameterKind::String,
            ),
                "target",
                "Target (usually 'wnd[0]')",
                ParameterKind::String,
            ),
            Operation::DoesElementExist => and_parameter(
                no_parameters(),
                "target",
                "Target",
                ParameterKind::String,
            ),
            Operation::ComponentType => and_parameter(
                no_parameters(),
                "target",
                "Target",
                ParameterKind::String,
            ),
            Operation::VisualiseElement => and_parameter(
                no_parameters(),
                "target",
                "Target",
                ParameterKind::String,
            ),
            Operation::SetTextValue => and_parameter(
                and_parameter(
                no_parameters(),
                "target",
                "Target",
                ParameterKind::String,
            ),
                "value",
                "Value",
                ParameterKind::String,
            ),
            Operation::GetTextValue => and_parameter(
                no_parameters(),
                "target",
                "Target",
                ParameterKind::String,
            ),
            Operation::SendKey => and_parameter(
                no_parameters(),
                "key",
                "Key (VKey)",
                ParameterKind::Integer,
            ),
            Operation::PressButton => and_parameter(
                no_parameters(),
                "target",
                "Target",
                ParameterKind::String,
            ),
            Operation::SetCheckbox => and_parameter(
                and_parameter(
                no_parameters(),
                "target",
                "Target",
                ParameterKind::String,
            ),
                "state",
                "Checked",
                ParameterKind::Boolean,
            ),
            Operation::SetComboBoxKey => and_parameter(
                and_parameter(
                no_parameters(),
                "target",
                "Target",
                ParameterKind::String,
            ),
                "key",
                "Key",
                ParameterKind::String,
            ),
            Operation::GridGetRowCount => and_parameter(
                no_parameters(),
                "target",
                "Target Grid",
                ParameterKind::String,
            ),
            Operation::GridClickCell => and_parameter(
                and_parameter(
                and_parameter(
                and_parameter(
                no_parameters(),
                "target",
                "Target Grid",
                ParameterKind::String,
            ),
                "row",
                "Row",
                ParameterKind::Integer,
            ),
                "col",
                "Column",
                ParameterKind::String,
            ),
                "double",
                "Double click",
                ParameterKind::Boolean,
            ),
            Operation::GridSelectColumn => and_parameter(
                and_parameter(
                no_parameters(),
                "target",
                "Target Grid",
                ParameterKind::String,
            ),
                "column",
                "Column",
                ParameterKind::String,
            ),
            Operation::GridDeselectColumn => and_parameter(
                and_parameter(
                no_parameters(),
                "target",
                "Target Grid",
                ParameterKind::String,
            ),
                "column",
                "Column",
                ParameterKind::String,
            ),
            Operation::GridContextMenu => and_parameter(
                no_parameters(),
                "target",
                "Target Grid",
                ParameterKind::String,
            ),
            Operation::GridGetCellValue => and_parameter(
                and_parameter(
                and_parameter(
                no_parameters(),
                "target",
                "Target Grid",
                ParameterKind::String,
            ),
                "row",
                "Row",
                ParameterKind::Integer,
            ),
                "col",
                "Column",
                ParameterKind::String,
            ),
            Operation::ShellSelectContextMenuItem => and_parameter(
                and_parameter(
                no_parameters(),
                "target",
                "Target",
                ParameterKind::String,
            ),
                "function_code",
                "Function Code",
                ParameterKind::String,
            ),
            Operation::GetStatusbarState => and_parameter(
                no_parameters(),
                "target",
                "Target (usually 'wnd[0]/sbar')",
                ParameterKind::String,
            ),
            Operation::TabSelect => and_parameter(
                no_parameters(),
                "target",
                "Target Tab",
                ParameterKind::String,
            ),
            Operation::TableGetRowCount => and_parameter(
                no_parameters(),
                "target",
                "Target",
                ParameterKind::String,
            ),
            Operation::TableRowSelect => and_parameter(
                and_parameter(
                no_parameters(),
                "target",
                "Target",
                ParameterKind::String,
            ),
                "row",
                "Row",
                ParameterKind::Integer,
            ),
            Operation::TableCellGetId => and_parameter(
                and_parameter(
                and_parameter(
                no_parameters(),
                "target",
                "Target",
                ParameterKind::String,
            ),
                "row",
                "Row",
                ParameterKind::Integer,
            ),
                "column",
                "Column",
                ParameterKind::Integer,
            ),
        }
    }

    /// The values that the instruction gives back, in order.
    pub fn outputs(self) -> (outputs: Vec<ParameterSpec>)
        ensures
            parameter_models(outputs@) == self.spec_outputs(),
    {
        match self {
            Operation::Connect => no_parameters(),
            Operation::RunTransaction => no_parameters(),
            Operation::Screenshot => no_parameters(),
            Operation::DoesElementExist => and_parameter(
                no_parameters(),
                "exists",
                "Exists",
                ParameterKind::Boolean,
            ),
            Operation::ComponentType => and_parameter(
                no_parameters(),
                "type",
                "Type",
                ParameterKind::String,
            ),
            Operation::VisualiseElement => no_parameters(),
            Operation::SetTextValue => no_parameters(),
            Operation::GetTextValue => and_parameter(
                no_parameters(),
                "value",
                "Value",
                ParameterKind::String,
            ),
            Operation::SendKey => no_parameters(),
            Operation::PressButton => no_parameters(),
            Operation::SetCheckbox => no_parameters(),
            Operation::SetComboBoxKey => no_parameters(),
            Operation::GridGetRowCount => and_parameter(
                no_parameters(),
                "value",
                "Number of rows",
                ParameterKind::Integer,
            ),
            Operation::GridClickCell => no_parameters(),
            Operation::GridSelectColumn => no_parameters(),
            Operation::GridDeselectColumn => no_parameters(),
            Operation::GridContextMenu => no_parameters(),
            Operation::GridGetCellValue => and_parameter(
                no_parameters(),
                "value",
                "Value",
                ParameterKind::String,
            ),
            Operation::ShellSelectContextMenuItem => no_parameters(),
            Operation::GetStatusbarState => and_parameter(
                no_parameters(),
                "status",
                "Status",
                ParameterKind::String,
            ),
            Operation::TabSelect => no_parameters(),
            Operation::TableGetRowCount => and_parameter(
                no_parameters(),
                "rows",
                "Rows",
                ParameterKind::Integer,
            ),
            Operation::TableRowSelect => no_parameters(),
            Operation::TableCellGetId => and_parameter(
                no_parameters(),
                "id",
                "Target ID",
                ParameterKind::String,
            ),
        }
    }

    /// Where the operation finds the object that it acts on.
    pub fn target(self) -> (target: TargetSource)
        ensures
            target == self.spec_target(),
    {
        match self {
            Operation::Connect => TargetSource::Nothing,
            Operation::RunTransaction => TargetSource::Root,
            Operation::Screenshot => TargetSource::Parameter,
            Operation::DoesElementExist => TargetSource::Parameter,
            Operation::ComponentType => TargetSource::Parameter,
            Operation::VisualiseElement => TargetSource::Parameter,
            Operation::SetTextValue => TargetSource::Parameter,
            Operation::GetTextValue => TargetSource::Parameter,
            Operation::SendKey => TargetSource::MainWindow,
            Operation::PressButton => TargetSource::Parameter,
            Operation::SetCheckbox => TargetSource::Parameter,
            Operation::SetComboBoxKey => TargetSource::Parameter,
            Operation::GridGetRowCount => TargetSource::Parameter,
            Operation::GridClickCell => TargetSource::Parameter,
            Operation::GridSelectColumn => TargetSource::Parameter,
            Operation::GridDeselectColumn => TargetSource::Parameter,
            Operation::GridContextMenu => TargetSource::Parameter,
            Operation::GridGetCellValue => TargetSource::Parameter,
            Operation::ShellSelectContextMenuItem => TargetSource::Parameter,
            Operation::GetStatusbarState => TargetSource::Parameter,
            Operation::TabSelect => TargetSource::Parameter,
            Operation::TableGetRowCount => TargetSource::Parameter,
            Operation::TableRowSelect => TargetSource::Parameter,
            Operation::TableCellGetId => TargetSource::Parameter,
        }
    }

    /// The capability that the operation needs of its target, if it needs one.
    pub fn capability(self) -> (capability: Option<Capability>)
        ensures
            capability == self.spec_capability(),
    {
        match self {
            Operation::Connect => None,
            Operation::RunTransaction => Some(Capability::Transactional),
            Operation::Screenshot => Some(Capability::Windowed),
            Operation::DoesElementExist => None,
            Operation::ComponentType => Some(Capability::Identifiable),
            Operation::VisualiseElement => Some(Capability::Visualizable),
            Operation::SetTextValue => Some(Capability::TextValued),
            Operation::GetTextValue => Some(Capability::TextValued),
            Operation::SendKey => Some(Capability::Windowed),
            Operation::PressButton => Some(Capability::Clickable),
            Operation::SetCheckbox => Some(Capability::Checkable),
            Operation::SetComboBoxKey => Some(Capability::KeyedSelectable),
            Operation::GridGetRowCount => Some(Capability::GridLike),
            Operation::GridClickCell => Some(Capability::GridLike),
            Operation::GridSelectColumn => Some(Capability::GridLike),
            Operation::GridDeselectColumn => Some(Capability::GridLike),
            Operation::GridContextMenu => Some(Capability::GridLike),
            Operation::GridGetCellValue => Some(Capability::GridLike),
            Operation::ShellSelectContextMenuItem => Some(Capability::ShellLike),
            Operation::GetStatusbarState => Some(Capability::StatusReporting),
            Operation::TabSelect => Some(Capability::TabSelectable),
            Operation::TableGetRowCount => Some(Capability::TableLike),
            Operation::TableRowSelect => Some(Capability::TableLike),
            Operation::TableCellGetId => Some(Capability::TableLike),
        }
    }

    /// What is reported where no object is found at `address`.
    pub fn not_found(self, address: &str) -> (reason: String)
        ensures
            reason@ == self.spec_not_found(address@),
    {
        match self {
            Operation::Connect => "".to_owned(),
            Operation::RunTransaction => "".to_owned(),
            Operation::Screenshot => join3("Couldn't find ", address, "."),
            Operation::DoesElementExist => "".to_owned(),
            Operation::ComponentType => join3("Couldn't find ", address, "."),
            Operation::VisualiseElement => join3("Couldn't find ", address, "."),
            Operation::SetTextValue => join3("Couldn't find ", address, "."),
            Operation::GetTextValue => join3("Couldn't find ", address, "."),
            Operation::SendKey => "SAP window couldn't be requested.".to_owned(),
            Operation::PressButton => "Failed to find component".to_owned(),
            Operation::SetCheckbox => "Failed to find component".to_owned(),
            Operation::SetComboBoxKey => join3("Couldn't find ", address, "."),
            Operation::GridGetRowCount => "Failed to find grid".to_owned(),
            Operation::GridClickCell => "Failed to find grid".to_owned(),
            Operation::GridSelectColumn => "Failed to find grid".to_owned(),
            Operation::GridDeselectColumn => "Failed to find grid".to_owned(),
            Operation::GridContextMenu => "Failed to find grid".to_owned(),
            Operation::GridGetCellValue => "Failed to find grid".to_owned(),
            Operation::ShellSelectContextMenuItem => "Failed to find grid".to_owned(),
            Operation::GetStatusbarState => "Failed to find status bar".to_owned(),
            Operation::TabSelect => "Failed to find tab".to_owned(),
            Operation::TableGetRowCount => "Failed to find table".to_owned(),
            Operation::TableRowSelect => "Failed to find table".to_owned(),
            Operation::TableCellGetId => "Failed to find table".to_owned(),
        }
    }

    /// What is reported where the target lacks the capability.
    pub fn unsupported(self) -> (reason: &'static str)
        ensures
            reason@ == self.spec_unsupported(),
    {
        match self {
            Operation::Connect => "",
            Operation::RunTransaction => "",
            Operation::Screenshot => "No valid target to screenshot.",
            Operation::DoesElementExist => "",
            Operation::ComponentType => "",
            Operation::VisualiseElement => "No valid target to visualise.",
            Operation::SetTextValue => "No valid target to set text.",
            Operation::GetTextValue => "No valid target to get text.",
            Operation::SendKey => "Window invalid",
            Operation::PressButton => "Tried to press a non-button",
            Operation::SetCheckbox => "Tried to check a non-checkbox",
            Operation::SetComboBoxKey => "No valid target to set combo box key",
            Operation::GridGetRowCount => "The grid was invalid",
            Operation::GridClickCell => "The grid was invalid",
            Operation::GridSelectColumn => "The grid was invalid",
            Operation::GridDeselectColumn => "The grid was invalid",
            Operation::GridContextMenu => "The grid was invalid",
            Operation::GridGetCellValue => "The grid was invalid",
            Operation::ShellSelectContextMenuItem => "The shell was invalid",
            Operation::GetStatusbarState => "The statusbar was invalid",
            Operation::TabSelect => "The tab was invalid",
            Operation::TableGetRowCount => "The table was invalid",
            Operation::TableRowSelect => "The table was invalid",
            Operation::TableCellGetId => "The table was invalid",
        }
    }

    /// What is put before the driver's own words where a step of the leaf operation fails.
    pub fn failure_prefix(self, step: LeafStep, double: bool) -> (prefix: &'static str)
        ensures
            prefix@ == self.spec_failure_prefix(step, double),
    {
        match self {
            Operation::Connect => "",
            Operation::RunTransaction => "Couldn't execute transaction. ",
            Operation::Screenshot => match step {
                LeafStep::First => "Can't screenshot: ",
                LeafStep::Second => "Failed to read screenshot: ",
            },
            Operation::DoesElementExist => "",
            Operation::ComponentType => "",
            Operation::VisualiseElement => "Failed to visualize: ",
            Operation::SetTextValue => "Can't set text: ",
            Operation::GetTextValue => "Can't get text: ",
            Operation::SendKey => "Couldn't send VKey: ",
            Operation::PressButton => "Couldn't press button: ",
            Operation::SetCheckbox => "Couldn't set checkbox: ",
            Operation::SetComboBoxKey => "Can't set combo box key: ",
            Operation::GridGetRowCount => "",
            Operation::GridClickCell => match step {
                LeafStep::First => "Couldn't select cell in grid: ",
                LeafStep::Second => if double {
                    "The grid couldn't be double clicked: "
                } else {
                    "The grid couldn't be clicked: "
                },
            },
            Operation::GridSelectColumn => "The column couldn't be selected: ",
            Operation::GridDeselectColumn => "The column couldn't be deselected: ",
            Operation::GridContextMenu => "Couldn't open context menu: ",
            Operation::GridGetCellValue => "",
            Operation::ShellSelectContextMenuItem => "Couldn't select context menu item: ",
            Operation::GetStatusbarState => "",
            Operation::TabSelect => "",
            Operation::TableGetRowCount => "",
            Operation::TableRowSelect => match step {
                LeafStep::First => "Failed to get table row: ",
                LeafStep::Second => "Failed to select row: ",
            },
            Operation::TableCellGetId => match step {
                LeafStep::First => "Failed to get table cell: ",
                LeafStep::Second => "",
            },
        }
    }

    /// The operation whose instruction is called `id`, if there is one.
    pub fn with_id(id: &str) -> (operation: Option<Operation>)
        ensures
            operation == operation_with_id(id@),
    {
        let operation =
            if str_eq(id, "sap-connect") {
                Some(Operation::Connect)
            } else if str_eq(id, "sap-run-transaction") {
                Some(Operation::RunTransaction)
            } else if str_eq(id, "sap-screenshot") {
                Some(Operation::Screenshot)
            } else if str_eq(id, "sap-does-element-exist") {
                Some(Operation::DoesElementExist)
            } else if str_eq(id, "sap-component-type") {
                Some(Operation::ComponentType)
            } else if str_eq(id, "sap-visualise-element") {
                Some(Operation::VisualiseElement)
            } else if str_eq(id, "sap-set-text-value") {
                Some(Operation::SetTextValue)
            } else if str_eq(id, "sap-get-text-value") {
                Some(Operation::GetTextValue)
            } else if str_eq(id, "sap-send-key") {
                Some(Operation::SendKey)
            } else if str_eq(id, "sap-press-button") {
                Some(Operation::PressButton)
            } else if str_eq(id, "sap-set-checkbox") {
                Some(Operation::SetCheckbox)
            } else if str_eq(id, "sap-set-combobox-key") {
                Some(Operation::SetComboBoxKey)
            } else if str_eq(id, "sap-grid-get-row-count") {
                Some(Operation::GridGetRowCount)
            } else if str_eq(id, "sap-grid-click-cell") {
                Some(Operation::GridClickCell)
            } else if str_eq(id, "sap-grid-select-column") {
                Some(Operation::GridSelectColumn)
            } else if str_eq(id, "sap-grid-deselect-column") {
                Some(Operation::GridDeselectColumn)
            } else if str_eq(id, "sap-grid-context-menu") {
                Some(Operation::GridContextMenu)
            } else if str_eq(id, "sap-grid-get-cell-value") {
                Some(Operation::GridGetCellValue)
            } else if str_eq(id, "sap-shell-select-context-menu-item") {
                Some(Operation::ShellSelectContextMenuItem)
            } else if str_eq(id, "sap-get-statusbar-state") {
                Some(Operation::GetStatusbarState)
            } else if str_eq(id, "sap-tab-select") {
                Some(Operation::TabSelect)
            } else if str_eq(id, "sap-table-get-row-count") {
                Some(Operation::TableGetRowCount)
            } else if str_eq(id, "sap-table-row-select") {
                Some(Operation::TableRowSelect)
            } else if str_eq(id, "sap-table-cell-get-id") {
                Some(Operation::TableCellGetId)
            } else {
                None
            };
        proof {
            match operation {
                Some(found) => {
                    assert(found.spec_id() == id@);
                    lemma_ids_distinct(named(id@), found);
                },
                None => {
                    assert forall|o: Operation| o.spec_id() != id@ by {}
                },
            }
        }
        operation
    }
}

/// Whether some instruction is called `id`.
pub open spec fn known(id: Seq<char>) -> bool {
    exists|o: Operation| o.spec_id() == id
}

/// The operation whose instruction is called `id`. Meaningful where one is.
pub open spec fn named(id: Seq<char>) -> Operation {
    choose|o: Operation| o.spec_id() == id
}

/// The operation whose instruction is called `id`, if there is one.
pub open spec fn operation_with_id(id: Seq<char>) -> Option<Operation> {
    if known(id) {
        Some(named(id))
    } else {
        None
    }
}

/// No two instructions share an identifier.
pub proof fn lemma_ids_distinct(a: Operation, b: Operation)
    requires
        a.spec_id() == b.spec_id(),
    ensures
        a == b,
{
    reveal_strlit("sap-connect");
    reveal_strlit("sap-run-transaction");
    reveal_strlit("sap-screenshot");
    reveal_strlit("sap-does-element-exist");
    reveal_strlit("sap-component-type");
    reveal_strlit("sap-visualise-element");
    reveal_strlit("sap-set-text-value");
    reveal_strlit("sap-get-text-value");
    reveal_strlit("sap-send-key");
    reveal_strlit("sap-press-button");
    reveal_strlit("sap-set-checkbox");
    reveal_strlit("sap-set-combobox-key");
    reveal_strlit("sap-grid-get-row-count");
    reveal_strlit("sap-grid-click-cell");
    reveal_strlit("sap-grid-select-column");
    reveal_strlit("sap-grid-deselect-column");
    reveal_strlit("sap-grid-context-menu");
    reveal_strlit("sap-grid-get-cell-value");
    reveal_strlit("sap-shell-select-context-menu-item");
    reveal_strlit("sap-get-statusbar-state");
    reveal_strlit("sap-tab-select");
    reveal_strlit("sap-table-get-row-count");
    reveal_strlit("sap-table-row-select");
    reveal_strlit("sap-table-cell-get-id");
    assert(telltale(a.spec_id()) == telltale(b.spec_id()));
}

/// Every operation is found again under the identifier of its instruction.
pub proof fn lemma_id_names_its_operation(operation: Operation)
    ensures
        operation_with_id(operation.spec_id()) == Some(operation),
{
    lemma_ids_distinct(named(operation.spec_id()), operation);
}

/// The instructions of the catalogue, in the order in which they are listed.
pub open spec fn standard_operations() -> Seq<Operation> {
    seq![
        Operation::Connect,
        Operation::RunTransaction,
        Operation::Screenshot,
        Operation::DoesElementExist,
        Operation::ComponentType,
        Operation::VisualiseElement,
        Operation::SetTextValue,
        Operation::GetTextValue,
        Operation::SendKey,
        Operation::PressButton,
        Operation::SetCheckbox,
        Operation::SetComboBoxKey,
        Operation::GridGetRowCount,
        Operation::GridClickCell,
        Operation::GridSelectColumn,
        Operation::GridDeselectColumn,
        Operation::GridContextMenu,
        Operation::GridGetCellValue,
        Operation::ShellSelectContextMenuItem,
        Operation::GetStatusbarState,
        Operation::TabSelect,
        Operation::TableGetRowCount,
        Operation::TableRowSelect,
        Operation::TableCellGetId,
    ]
}

} // verus!
