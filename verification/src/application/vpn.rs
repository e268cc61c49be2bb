use vstd::prelude::*;

use crate::domain::Credentials;

verus! {

pub type VpnBackendResult<T> = Result<T, VpnBackendError>;

/// The port through which the window reaches a VPN backend.
pub trait VpnBackend: Send + Sync {
    fn preflight(&self) -> VpnBackendResult<()>;

    fn is_connected(&self) -> bool;

    fn active_pid(&self) -> Option<u32>;

    fn is_managed_process(&self, pid: u32) -> bool;

    fn connect(&self, credentials: Credentials) -> VpnBackendResult<Box<dyn VpnSession>>;

    fn disconnect(&self, pid: u32) -> VpnBackendResult<()>;

    fn clear_state(&self);
}

/// A running VPN session, as the process that carries it reports it.
pub trait VpnSession: Send {
    fn pid(&self) -> u32;

    fn verified(&self) -> bool;

    fn poll(&mut self) -> VpnBackendResult<SessionStatus>;
}

/// Whether the process of a session still runs.
#[derive(Clone, Copy, Debug, PartialEq, Eq, Structural)]
pub enum SessionStatus {
    Active,
    Exited,
}

/// The failures of the backend that are shown in the user's language.
#[derive(Clone, Copy, Debug, PartialEq, Eq, Structural)]
pub enum BackendErrorMessage {
    UnsupportedPlatform,
    SystemAuthorizationUnavailable,
    OpenConnectNotFound,
    PkexecNotFound,
    AuthorizationCancelled,
    ConnectionUnavailable,
    PolkitStartFailed,
    DisconnectFailed,
    DisconnectStillActive,
    ProcessMonitoringFailed,
    StateStoreFailed,
    ConnectionStartFailed,
}

/// An error of the VPN backend: either a plain message, or one of the
/// localized failures with an optional detail text (such as what the failing
/// command printed).
#[derive(Clone, Debug, PartialEq, Eq)]
pub struct VpnBackendError {
    message: String,
    localized: Option<BackendErrorMessage>,
}

impl View for VpnBackendError {
    /// The localized failure, if any, and the text: the plain message, or
    /// the detail of a localized failure (empty when it has none).
    type V = (Option<BackendErrorMessage>, Seq<char>);

    closed spec fn view(&self) -> (Option<BackendErrorMessage>, Seq<char>) {
        (self.localized, self.message@)
    }
}

impl VpnBackendError {
    pub fn new(message: String) -> (error: Self)
        ensures
            error@ == (None::<BackendErrorMessage>, message@),
    {
        VpnBackendError { message, localized: None }
    }

    pub fn localized(kind: BackendErrorMessage) -> (error: Self)
        ensures
            error@ == (Some(kind), Seq::<char>::empty()),
    {
        VpnBackendError { message: String::new(), localized: Some(kind) }
    }

    pub fn localized_with_detail(kind: BackendErrorMessage, detail: String) -> (error: Self)
        ensures
            error@ == (Some(kind), detail@),
    {
        VpnBackendError { message: detail, localized: Some(kind) }
    }

    /// The plain message, or the detail of a localized failure.
    pub fn message(&self) -> (text: &str)
        ensures
            text@ == self@.1,
    {
        self.message.as_str()
    }

    /// The localized failure, if the error is one.
    pub fn localized_message(&self) -> (kind: Option<BackendErrorMessage>)
        ensures
            kind == self@.0,
    {
        self.localized
    }
}

impl From<String> for VpnBackendError {
    fn from(value: String) -> (error: Self)
        ensures
            error@ == (None::<BackendErrorMessage>, value@),
    {
        VpnBackendError { message: value, localized: None }
    }
}

impl vstd::std_specs::convert::FromSpecImpl<String> for VpnBackendError {
    open spec fn obeys_from_spec() -> bool {
        true
    }

    closed spec fn from_spec(v: String) -> Self {
        VpnBackendError { message: v, localized: None }
    }
}

impl<'a> From<&'a str> for VpnBackendError {
    fn from(value: &'a str) -> (error: Self)
        ensures
            error@ == (None::<BackendErrorMessage>, value@),
    {
        VpnBackendError::new(value.to_owned())
    }
}

impl<'a> vstd::std_specs::convert::FromSpecImpl<&'a str> for VpnBackendError {
    /// A `String` made from a `&str` is a new value that no spec function
    /// can name, so the conversion is described by the `ensures` of `from`.
    open spec fn obeys_from_spec() -> bool {
        false
    }

    closed spec fn from_spec(v: &'a str) -> Self {
        arbitrary()
    }
}

} // verus!
