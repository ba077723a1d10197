//! Capabilities, and the resolution of a component into a capability view.
//!
//! Operations never ask for a concrete kind: they ask for a capability. Each
//! capability lists the kinds that declare it once, in `declares`; every
//! operation resolves the capability it needs before it touches the component.

use crate::kind::{
    is_shell,
    is_visual,
    is_window,
    kind_with_key,
    reported_key,
    ComponentKind,
    Lineage,
};
use vstd::prelude::*;

verus! {

/// A named operation interface that a kind may declare.
#[derive(Clone, Copy, Debug, PartialEq, Eq, Hash, Structural)]
pub enum Capability {
    /// Its type and address can be read back.
    Identifiable,
    /// It can be highlighted on screen.
    Visualizable,
    /// Its text can be read and written.
    TextValued,
    /// It takes key presses and can be captured as an image.
    Windowed,
    /// It offers a context menu of function codes.
    ShellLike,
    /// It can be pressed.
    Clickable,
    /// It can be ticked and cleared.
    Checkable,
    /// One of its entries can be selected by key.
    KeyedSelectable,
    /// It holds cells addressed by row and column name.
    GridLike,
    /// It reports the type of the message it shows.
    StatusReporting,
    /// It can be brought to the front of its strip.
    TabSelectable,
    /// It holds rows and cells addressed by number.
    TableLike,
    /// It can start a transaction.
    Transactional,
}

/// Whether `kind` declares `capability`. This depends on nothing but the pair.
pub open spec fn declares(kind: ComponentKind, capability: Capability) -> bool {
    match capability {
        Capability::Identifiable => true,
        Capability::Visualizable => is_visual(kind),
        Capability::TextValued => is_visual(kind),
        Capability::Windowed => is_window(kind),
        Capability::ShellLike => is_shell(kind),
        Capability::Clickable => kind is GuiButton,
        Capability::Checkable => kind is GuiCheckBox,
        Capability::KeyedSelectable => kind is GuiComboBox,
        Capability::GridLike => kind is GuiGridView,
        Capability::StatusReporting => kind is GuiStatusbar,
        Capability::TabSelectable => kind is GuiTab,
        Capability::TableLike => kind is GuiTableControl,
        Capability::Transactional => kind is GuiSession,
    }
}

/// Every kind can be identified, and only visual objects declare more than
/// that, but for the session, which can start a transaction.
pub proof fn lemma_what_kinds_declare(kind: ComponentKind, capability: Capability)
    ensures
        declares(kind, Capability::Identifiable),
        declares(kind, capability) ==> capability is Identifiable || is_visual(kind) || (
        capability is Transactional && kind is GuiSession),
        is_shell(kind) ==> is_visual(kind),
        is_window(kind) ==> is_visual(kind),
        !(is_shell(kind) && is_window(kind)),
{
}

impl ComponentKind {
    /// Whether this kind declares `capability`.
    pub fn supports(self, capability: Capability) -> (declared: bool)
        ensures
            declared == declares(self, capability),
    {
        let lineage = self.lineage();
        match capability {
            Capability::Identifiable => true,
            Capability::Visualizable => lineage != Lineage::Plain,
            Capability::TextValued => lineage != Lineage::Plain,
            Capability::Windowed => lineage == Lineage::Window,
            Capability::ShellLike => lineage == Lineage::Shell,
            Capability::Clickable => self == ComponentKind::GuiButton,
            Capability::Checkable => self == ComponentKind::GuiCheckBox,
            Capability::KeyedSelectable => self == ComponentKind::GuiComboBox,
            Capability::GridLike => self == ComponentKind::GuiGridView,
            Capability::StatusReporting => self == ComponentKind::GuiStatusbar,
            Capability::TabSelectable => self == ComponentKind::GuiTab,
            Capability::TableLike => self == ComponentKind::GuiTableControl,
            Capability::Transactional => self == ComponentKind::GuiSession,
        }
    }
}

/// What a component is, as the contracts speak of it.
pub struct ComponentModel {
    /// The path by which the interface finds the object.
    pub address: Seq<char>,
    /// The kind that was reported when the address was resolved.
    pub kind: ComponentKind,
}

/// What a capability view is, as the contracts speak of it.
pub struct Grant {
    /// The path of the component that the view narrows.
    pub address: Seq<char>,
    /// The kind of that component.
    pub kind: ComponentKind,
    /// The capability through which the component may be used.
    pub capability: Capability,
}

/// The result of resolving an address: a handle tagged with its kind.
///
/// The kind is fixed when the handle is made and cannot be changed afterwards.
#[derive(Debug)]
pub struct Component {
    address: String,
    kind: ComponentKind,
}

/// A component narrowed to one capability that its kind declares.
///
/// A view is made by `resolve_capability` and in no other way, so holding one
/// shows that the capability is declared.
#[derive(Debug)]
pub struct CapabilityView {
    address: String,
    kind: ComponentKind,
    capability: Capability,
}

/// The failure of a resolution: what was asked for, and of which kind.
#[derive(Clone, Copy, Debug, PartialEq, Eq, Structural)]
pub struct UnsupportedCapability {
    /// The capability that was requested.
    pub capability: Capability,
    /// The kind of the component, which does not declare it.
    pub kind: ComponentKind,
}

impl View for Component {
    type V = ComponentModel;

    closed spec fn view(&self) -> ComponentModel {
        ComponentModel { address: self.address@, kind: self.kind }
    }
}

impl View for CapabilityView {
    type V = Grant;

    closed spec fn view(&self) -> Grant {
        Grant { address: self.address@, kind: self.kind, capability: self.capability }
    }
}

impl Clone for Component {
    fn clone(&self) -> (copy: Self)
        ensures
            copy@ == self@,
    {
        Component { address: self.address.clone(), kind: self.kind }
    }
}

impl Component {
    /// A component of a known kind at `address`.
    pub fn new(address: String, kind: ComponentKind) -> (component: Component)
        ensures
            component@ == (ComponentModel { address: address@, kind }),
    {
        Component { address, kind }
    }

    /// The component at `address`, of the kind that the interface reported for
    /// it.
    pub fn resolved(address: String, reported_type: &str, sub_type: Option<&str>) -> (component:
        Component)
        ensures
            component@.address == address@,
            component@.kind == kind_with_key(
                reported_key(
                    reported_type@,
                    match sub_type {
                        Some(s) => Some(s@),
                        None => None,
                    },
                ),
            ),
    {
        let kind = ComponentKind::classify(reported_type, sub_type);
        Component { address, kind }
    }

    /// The path by which the interface finds the object.
    pub fn address(&self) -> (address: &str)
        ensures
            address@ == self@.address,
    {
        self.address.as_str()
    }

    /// The kind that was reported when the address was resolved.
    pub fn kind(&self) -> (kind: ComponentKind)
        ensures
            kind == self@.kind,
    {
        self.kind
    }
}

impl CapabilityView {
    #[verifier::type_invariant]
    spec fn granted(self) -> bool {
        declares(self.kind, self.capability)
    }

    /// The path of the component that the view narrows.
    pub fn address(&self) -> (address: &str)
        ensures
            address@ == self@.address,
    {
        self.address.as_str()
    }

    /// The kind of the component, which declares the view's capability.
    pub fn kind(&self) -> (kind: ComponentKind)
        ensures
            kind == self@.kind,
            declares(self@.kind, self@.capability),
    {
        proof {
            use_type_invariant(self);
        }
        self.kind
    }

    /// The capability through which the component may be used.
    pub fn capability(&self) -> (capability: Capability)
        ensures
            capability == self@.capability,
            declares(self@.kind, self@.capability),
    {
        proof {
            use_type_invariant(self);
        }
        self.capability
    }
}

/// Narrows `component` to `capability`.
///
/// Succeeds exactly where the component's kind declares the capability. The
/// failure names the capability that was asked for and the kind that lacks it.
pub fn resolve_capability(component: &Component, capability: Capability) -> (resolution: Result<
    CapabilityView,
    UnsupportedCapability,
>)
    ensures
        match resolution {
            Ok(view) => declares(component@.kind, capability) && view@ == (Grant {
                address: component@.address,
                kind: component@.kind,
                capability,
            }),
            Err(failure) => !declares(component@.kind, capability) && failure == (
            UnsupportedCapability { capability, kind: component@.kind }),
        },
{
    if component.kind.supports(capability) {
        Ok(CapabilityView { address: component.address.clone(), kind: component.kind, capability })
    } else {
        Err(UnsupportedCapability { capability, kind: component.kind })
    }
}

} // verus!
