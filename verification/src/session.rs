//! The session: the one connection to the application that an engine holds.
//!
//! The session owns the root context, or nothing. It is made whole by one
//! successful connect and discarded whole by a reset; no step leaves it half
//! made. The live handles stay with the driver: the session holds what the
//! engine reads of them.

use crate::capability::{Component, ComponentModel};
use crate::kind::{kind_with_key, reported_key, ComponentKind};
use vstd::prelude::*;

verus! {

/// What the interface reports of an object, as the contracts speak of it.
pub struct ReportedModel {
    pub reported_type: Seq<char>,
    pub sub_type: Option<Seq<char>>,
}

/// What the interface reports of an object: its type and, where it could be
/// read, its sub-type.
#[derive(Debug)]
pub struct Reported {
    pub reported_type: String,
    pub sub_type: Option<String>,
}

/// Why a connect failed.
#[derive(Debug)]
pub struct ConnectError {
    pub reason: String,
}

/// The failure to find an object: the address at which none was found.
#[derive(Debug)]
pub struct NotFound {
    pub address: String,
}

impl View for Reported {
    type V = ReportedModel;

    open spec fn view(&self) -> ReportedModel {
        ReportedModel {
            reported_type: self.reported_type@,
            sub_type: match self.sub_type {
                Some(sub_type) => Some(sub_type@),
                None => None,
            },
        }
    }
}

impl ReportedModel {
    /// The kind that the interface means by the report.
    pub open spec fn kind(self) -> ComponentKind {
        kind_with_key(reported_key(self.reported_type, self.sub_type))
    }
}

impl Reported {
    /// The kind that the interface means by the report.
    pub fn kind(&self) -> (kind: ComponentKind)
        ensures
            kind == self@.kind(),
    {
        match &self.sub_type {
            Some(sub_type) => ComponentKind::classify(
                self.reported_type.as_str(),
                Some(sub_type.as_str()),
            ),
            None => ComponentKind::classify(self.reported_type.as_str(), None),
        }
    }
}

/// What is reported where the application's first child is no connection.
pub open spec fn no_connection_reason() -> Seq<char> {
    "Expected GuiConnection, but got something else!"@
}

/// What is reported where the connection's first child is no session.
pub open spec fn no_session_reason() -> Seq<char> {
    "Expected GuiSession, but got something else!"@
}

/// What is reported where the root context is asked for before a connect.
pub open spec fn not_initialised_reason() -> Seq<char> {
    "GuiSession not initialised"@
}

/// The root context that a session holds after it was offered the object at
/// `address` as its root: the one it held before, else the offered one where
/// that is a session object, else none.
pub open spec fn root_after_connect(
    root: Option<ComponentModel>,
    address: Seq<char>,
    found: ReportedModel,
) -> Option<ComponentModel> {
    if root is Some {
        root
    } else if found.kind() is GuiSession {
        Some(ComponentModel { address, kind: ComponentKind::GuiSession })
    } else {
        None
    }
}

/// The component at `address` of a session with the root context `root`, given
/// what the driver found there: none where the session is not connected, and
/// none where the driver found nothing.
pub open spec fn resolution(
    root: Option<ComponentModel>,
    address: Seq<char>,
    found: Option<ReportedModel>,
) -> Option<ComponentModel> {
    match found {
        Some(reported) => if root is Some {
            Some(ComponentModel { address, kind: reported.kind() })
        } else {
            None
        },
        None => None,
    }
}

/// Holds the first child of the application to what a connect expects.
///
/// Succeeds exactly where that child is a connection object.
pub fn expect_connection(found: &Reported) -> (outcome: Result<(), ConnectError>)
    ensures
        match outcome {
            Ok(()) => found@.kind() is GuiConnection,
            Err(error) => !(found@.kind() is GuiConnection) && error.reason@
                == no_connection_reason(),
        },
{
    if found.kind() == ComponentKind::GuiConnection {
        Ok(())
    } else {
        Err(ConnectError { reason: "Expected GuiConnection, but got something else!".to_owned() })
    }
}

/// The one connection to the application: the root context, or nothing.
#[derive(Debug)]
pub struct Session {
    root: Option<Component>,
}

impl View for Session {
    type V = Option<ComponentModel>;

    closed spec fn view(&self) -> Option<ComponentModel> {
        match self.root {
            Some(root) => Some(root@),
            None => None,
        }
    }
}

/// Whether `root` can be the root context of a session.
pub open spec fn session_root(root: Option<ComponentModel>) -> bool {
    root matches Some(component) ==> component.kind is GuiSession
}

impl Session {
    #[verifier::type_invariant]
    spec fn well_formed(self) -> bool {
        session_root(self@)
    }

    /// A session that is not connected.
    pub fn new() -> (session: Session)
        ensures
            session@ is None,
    {
        Session { root: None }
    }

    /// Whether the session holds a root context.
    pub fn is_connected(&self) -> (connected: bool)
        ensures
            connected == (self@ is Some),
            session_root(self@),
    {
        proof {
            use_type_invariant(self);
        }
        self.root.is_some()
    }

    /// Completes a connect with the first child of the connection, found at
    /// `address`.
    ///
    /// Does nothing where the session is connected already. Otherwise the
    /// child becomes the root context where it is a session object; where it
    /// is not, the connect fails and the session stays as it was, so that a
    /// later connect starts afresh.
    pub fn connect(&mut self, address: String, found: &Reported) -> (outcome: Result<
        (),
        ConnectError,
    >)
        ensures
            final(self)@ == root_after_connect(old(self)@, address@, found@),
            match outcome {
                Ok(()) => final(self)@ is Some,
                Err(error) => final(self)@ is None && error.reason@ == no_session_reason(),
            },
    {
        if self.root.is_some() {
            return Ok(());
        }
        if found.kind() == ComponentKind::GuiSession {
            self.root = Some(Component::new(address, ComponentKind::GuiSession));
            Ok(())
        } else {
            Err(ConnectError { reason: "Expected GuiSession, but got something else!".to_owned() })
        }
    }

    /// Discards the root context.
    pub fn reset(&mut self)
        ensures
            final(self)@ is None,
    {
        self.root = None;
    }

    /// The root context, or the reason why there is none.
    pub fn get_session(&self) -> (root: Result<&Component, String>)
        ensures
            match root {
                Ok(component) => self@ == Some(component@) && component@.kind is GuiSession,
                Err(reason) => self@ is None && reason@ == not_initialised_reason(),
            },
    {
        proof {
            use_type_invariant(self);
        }
        match &self.root {
            Some(component) => Ok(component),
            None => Err("GuiSession not initialised".to_owned()),
        }
    }

    /// The component at `address`, given what the driver found there.
    ///
    /// Succeeds exactly where the session is connected and the driver found
    /// an object; the failure carries the address.
    pub fn resolve(&self, address: String, found: Option<&Reported>) -> (outcome: Result<
        Component,
        NotFound,
    >)
        ensures
            match outcome {
                Ok(component) => resolution(
                    self@,
                    address@,
                    match found {
                        Some(reported) => Some(reported@),
                        None => None,
                    },
                ) == Some(component@),
                Err(failure) => resolution(
                    self@,
                    address@,
                    match found {
                        Some(reported) => Some(reported@),
                        None => None,
                    },
                ) is None && failure.address@ == address@,
            },
    {
        match found {
            Some(reported) => {
                if self.root.is_some() {
                    Ok(Component::new(address, reported.kind()))
                } else {
                    Err(NotFound { address })
                }
            },
            None => Err(NotFound { address }),
        }
    }
}

} // verus!
