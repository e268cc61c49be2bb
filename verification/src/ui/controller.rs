//! The decisions of the VPN window: what the form, the status text and the
//! main button show, and how each answer of the backend moves the state.
//! The window runs the backend calls and the worker threads, and hands each
//! outcome to the controller.
use vstd::prelude::*;

use crate::application::{SessionStatus, VpnBackendError};
use crate::domain::{
    is_transitional, primary_action_for, server_from_text, spec_primary_action, username_from_text,
    ConnectionState, CredentialError, Password, PrimaryAction, ServerAddress, Username,
};

verus! {

/// The status texts that the window shows under the state.
#[derive(Clone, Copy, Debug, PartialEq, Eq, Structural)]
pub enum StatusMessage {
    AlreadyConnected,
    EnterCredentials,
    AuthorizeOperation,
    NoConnection,
    InvalidStateFile,
    ClosingTunnel,
    ConnectionVerified,
    ConnectionUnverified,
    VpnDisconnected,
    OperationInterrupted,
    ConnectionEnded,
}

/// What the status line explains.
#[derive(Clone, Debug)]
pub enum StatusDetail {
    Message(StatusMessage),
    CredentialError(CredentialError),
    BackendError(VpnBackendError),
}

/// What a worker thread reported, or that it has not reported yet.
pub enum WorkerEvent {
    Connected { verified: bool },
    ConnectFailed(VpnBackendError),
    Disconnected,
    DisconnectFailed(VpnBackendError),
    Pending,
    ChannelClosed,
}

/// What the window does with its worker and its session after an event.
#[derive(Clone, Copy, Debug, PartialEq, Eq, Structural)]
pub enum WorkerAction {
    /// Keep waiting for the worker.
    Wait,
    /// The worker is done.
    Finish,
    /// The worker is done; keep the session that it opened.
    FinishStoringSession,
    /// The worker is done; end the session and clear the backend's state.
    FinishClearingSession,
}

/// What the window does after polling its session.
#[derive(Clone, Copy, Debug, PartialEq, Eq, Structural)]
pub enum PollAction {
    /// The session runs: go on with the liveness check.
    Continue,
    /// The session ended: drop it, clear the backend's state, stop here.
    ClearState,
    /// The session could not be watched: drop it, stop here.
    DropSession,
}

/// The label of the main button.
#[derive(Clone, Copy, Debug, PartialEq, Eq, Structural)]
pub enum ButtonLabel {
    Connect,
    Disconnect,
    Wait,
}

#[derive(Clone, Copy, Debug, PartialEq, Eq, Structural)]
pub struct PrimaryButton {
    pub label: ButtonLabel,
    pub enabled: bool,
}

/// The main button for a state: disconnect while connected, wait during an
/// operation, connect otherwise.
pub open spec fn spec_primary_button(state: ConnectionState, busy: bool) -> PrimaryButton {
    match state {
        ConnectionState::Connected => PrimaryButton { label: ButtonLabel::Disconnect, enabled: !busy },
        ConnectionState::Connecting | ConnectionState::Disconnecting => PrimaryButton {
            label: ButtonLabel::Wait,
            enabled: false,
        },
        ConnectionState::Disconnected | ConnectionState::Error => PrimaryButton {
            label: ButtonLabel::Connect,
            enabled: true,
        },
    }
}

/// The main button names the action it runs: while no operation runs it is
/// enabled, labelled Connect exactly when the action is to connect and
/// Disconnect exactly when it is to disconnect; a Wait button is never
/// enabled, and it shows exactly while an operation runs.
pub proof fn law_primary_button_names_its_action(state: ConnectionState, busy: bool)
    requires
        busy == is_transitional(state),
    ensures
        spec_primary_button(state, busy).enabled <==> spec_primary_action(state, busy) is Some,
        spec_primary_button(state, busy).enabled ==> ((spec_primary_button(state, busy).label
            == ButtonLabel::Connect) <==> (spec_primary_action(state, busy) == Some(
            PrimaryAction::Connect,
        ))),
        spec_primary_button(state, busy).enabled ==> ((spec_primary_button(state, busy).label
            == ButtonLabel::Disconnect) <==> (spec_primary_action(state, busy) == Some(
            PrimaryAction::Disconnect,
        ))),
        spec_primary_button(state, busy).label == ButtonLabel::Wait ==> !spec_primary_button(
            state,
            busy,
        ).enabled,
        (spec_primary_button(state, busy).label == ButtonLabel::Wait) <==> busy,
{
}

/// The form's server is checked first, then the user name, then the
/// password: the first field that is wrong is the one reported, and a form
/// whose three fields are right is not refused.
pub proof fn law_form_error_order(server: Seq<char>, username: Seq<char>, password: Seq<char>)
    ensures
        server_from_text(server) matches Err(e) ==> form_error(server, username, password) == Some(e),
        server_from_text(server) is Ok ==> (username_from_text(username) matches Err(e)
            ==> form_error(server, username, password) == Some(e)),
        server_from_text(server) is Ok && username_from_text(username) is Ok && password.len() == 0
            ==> form_error(server, username, password) == Some(CredentialError::EmptyPassword),
        form_error(server, username, password) is None <==> (server_from_text(server) is Ok
            && username_from_text(username) is Ok && password.len() > 0),
{
}

/// The first refusal of the form, in the order server, user name, password.
pub open spec fn form_error(server: Seq<char>, username: Seq<char>, password: Seq<char>) -> Option<
    CredentialError,
> {
    match server_from_text(server) {
        Err(error) => Some(error),
        Ok(_) => match username_from_text(username) {
            Err(error) => Some(error),
            Ok(_) => if password.len() == 0 {
                Some(CredentialError::EmptyPassword)
            } else {
                None
            },
        },
    }
}

/// A PID that the backend found to run OpenConnect; only
/// `ConnectionController::apply_managed_probe` makes one.
pub struct ValidatedPid {
    pid: u32,
}

impl ValidatedPid {
    pub closed spec fn spec_pid(self) -> u32 {
        self.pid
    }

    pub fn pid(&self) -> (pid: u32)
        ensures
            pid == self.spec_pid(),
    {
        self.pid
    }
}

pub struct ControllerView {
    pub state: ConnectionState,
    pub detail: StatusDetail,
    /// A worker thread runs a connection or a disconnection.
    pub busy: bool,
}

/// The state of the window, apart from the form's fields.
pub struct ConnectionController {
    state: ConnectionState,
    detail: StatusDetail,
    busy: bool,
}

impl View for ConnectionController {
    type V = ControllerView;

    closed spec fn view(&self) -> ControllerView {
        ControllerView { state: self.state, detail: self.detail, busy: self.busy }
    }
}

/// The view after a refusal or a failure: the error state, explained.
pub open spec fn failed_view(detail: StatusDetail) -> ControllerView {
    ControllerView { state: ConnectionState::Error, detail, busy: false }
}

/// The view of a settled state with its message.
pub open spec fn settled_view(state: ConnectionState, message: StatusMessage) -> ControllerView {
    ControllerView { state, detail: StatusDetail::Message(message), busy: false }
}

impl ConnectionController {
    /// A worker runs exactly while the state is connecting or disconnecting.
    #[verifier::type_invariant]
    closed spec fn busy_while_transitional(self) -> bool {
        self.busy == is_transitional(self.state)
    }

    /// The window as it opens: connected if a tunnel already runs.
    pub fn new(already_connected: bool) -> (controller: Self)
        ensures
            controller@ == (if already_connected {
                settled_view(ConnectionState::Connected, StatusMessage::AlreadyConnected)
            } else {
                settled_view(ConnectionState::Disconnected, StatusMessage::EnterCredentials)
            }),
    {
        if already_connected {
            ConnectionController {
                state: ConnectionState::Connected,
                detail: StatusDetail::Message(StatusMessage::AlreadyConnected),
                busy: false,
            }
        } else {
            ConnectionController {
                state: ConnectionState::Disconnected,
                detail: StatusDetail::Message(StatusMessage::EnterCredentials),
                busy: false,
            }
        }
    }

    pub fn state(&self) -> (state: ConnectionState)
        ensures
            state == self@.state,
    {
        self.state
    }

    pub fn detail(&self) -> (detail: &StatusDetail)
        ensures
            *detail == self@.detail,
    {
        &self.detail
    }

    /// Whether a worker runs; it does exactly during an operation.
    pub fn is_busy(&self) -> (busy: bool)
        ensures
            busy == self@.busy,
            busy == is_transitional(self@.state),
    {
        proof {
            use_type_invariant(self);
        }
        self.busy
    }

    pub fn primary_action(&self) -> (action: Option<PrimaryAction>)
        ensures
            action == spec_primary_action(self@.state, self@.busy),
    {
        primary_action_for(self.state, self.busy)
    }

    /// The main button; it is enabled exactly when there is an action to run.
    pub fn primary_button(&self) -> (button: PrimaryButton)
        ensures
            button == spec_primary_button(self@.state, self@.busy),
            button.enabled == spec_primary_action(self@.state, self@.busy) is Some,
            button.label == ButtonLabel::Wait <==> self@.busy,
            button.enabled ==> (button.label == ButtonLabel::Connect <==> spec_primary_action(
                self@.state,
                self@.busy,
            ) == Some(PrimaryAction::Connect)),
            button.enabled ==> (button.label == ButtonLabel::Disconnect <==> spec_primary_action(
                self@.state,
                self@.busy,
            ) == Some(PrimaryAction::Disconnect)),
            button.label == ButtonLabel::Connect ==> (button.enabled ==> spec_primary_action(
                self@.state,
                self@.busy,
            ) == Some(PrimaryAction::Connect)),
            button.label == ButtonLabel::Disconnect ==> (button.enabled ==> spec_primary_action(
                self@.state,
                self@.busy,
            ) == Some(PrimaryAction::Disconnect)),
    {
        proof {
            use_type_invariant(self);
        }
        match self.state {
            ConnectionState::Connected => PrimaryButton {
                label: ButtonLabel::Disconnect,
                enabled: !self.busy,
            },
            ConnectionState::Connecting | ConnectionState::Disconnecting => PrimaryButton {
                label: ButtonLabel::Wait,
                enabled: false,
            },
            ConnectionState::Disconnected | ConnectionState::Error => PrimaryButton {
                label: ButtonLabel::Connect,
                enabled: true,
            },
        }
    }

    /// The form can be edited when no operation runs and no tunnel is up.
    pub fn form_enabled(&self) -> (enabled: bool)
        ensures
            enabled == (!self@.busy && self@.state != ConnectionState::Connected),
            enabled ==> spec_primary_action(self@.state, self@.busy) == Some(PrimaryAction::Connect),
    {
        proof {
            use_type_invariant(self);
        }
        !self.busy && self.state != ConnectionState::Connected
    }

    /// The window redraws often while an operation runs.
    pub fn repaint_quickly(&self) -> (quickly: bool)
        ensures
            quickly == is_transitional(self@.state),
    {
        match self.state {
            ConnectionState::Connecting | ConnectionState::Disconnecting => true,
            _ => false,
        }
    }

    pub fn show_credential_error(&mut self, error: CredentialError)
        requires
            !old(self)@.busy,
        ensures
            final(self)@ == failed_view(StatusDetail::CredentialError(error)),
    {
        *self = ConnectionController {
            state: ConnectionState::Error,
            detail: StatusDetail::CredentialError(error),
            busy: false,
        };
    }

    /// Checks the form before a connection; on a refusal the window shows it.
    pub fn check_form(&mut self, server: &str, username: &str, password: &Password) -> (checked:
        Option<(ServerAddress, Username)>)
        requires
            !old(self)@.busy,
        ensures
            checked is None <==> form_error(server@, username@, password@) is Some,
            checked is None ==> final(self)@ == failed_view(
                StatusDetail::CredentialError(form_error(server@, username@, password@)->0),
            ),
            checked matches Some(fields) ==> {
                &&& final(self)@ == old(self)@
                &&& server_from_text(server@) == Ok::<Seq<char>, CredentialError>(fields.0@)
                &&& username_from_text(username@) == Ok::<Seq<char>, CredentialError>(fields.1@)
            },
    {
        let server = match ServerAddress::parse(server) {
            Ok(server) => server,
            Err(error) => {
                self.show_credential_error(error);
                return None;
            },
        };
        let username = match Username::parse(username) {
            Ok(username) => username,
            Err(error) => {
                self.show_credential_error(error);
                return None;
            },
        };
        if password.is_empty() {
            self.show_credential_error(CredentialError::EmptyPassword);
            return None;
        }
        Some((server, username))
    }

    /// The outcome of the backend's checks; `false` stops the connection.
    pub fn apply_preflight(&mut self, checked: Result<(), VpnBackendError>) -> (go_on: bool)
        requires
            !old(self)@.busy,
        ensures
            go_on == checked is Ok,
            go_on ==> final(self)@ == old(self)@,
            checked matches Err(error) ==> final(self)@ == failed_view(
                StatusDetail::BackendError(error),
            ),
    {
        match checked {
            Ok(()) => true,
            Err(error) => {
                *self = ConnectionController {
                    state: ConnectionState::Error,
                    detail: StatusDetail::BackendError(error),
                    busy: false,
                };
                false
            },
        }
    }

    /// Whether a tunnel already runs; `false` stops the connection.
    pub fn apply_connected_probe(&mut self, connected: bool) -> (go_on: bool)
        requires
            !old(self)@.busy,
        ensures
            go_on == !connected,
            go_on ==> final(self)@ == old(self)@,
            connected ==> final(self)@ == settled_view(
                ConnectionState::Connected,
                StatusMessage::AlreadyConnected,
            ),
    {
        if connected {
            *self = ConnectionController {
                state: ConnectionState::Connected,
                detail: StatusDetail::Message(StatusMessage::AlreadyConnected),
                busy: false,
            };
            false
        } else {
            true
        }
    }

    /// A worker now connects.
    pub fn connection_started(&mut self)
        requires
            !old(self)@.busy,
        ensures
            final(self)@ == (ControllerView {
                state: ConnectionState::Connecting,
                detail: StatusDetail::Message(StatusMessage::AuthorizeOperation),
                busy: true,
            }),
    {
        *self = ConnectionController {
            state: ConnectionState::Connecting,
            detail: StatusDetail::Message(StatusMessage::AuthorizeOperation),
            busy: true,
        };
    }

    /// The PID to stop: that of the session, else the one the backend
    /// recorded; without one there is nothing to disconnect.
    pub fn disconnect_target(&mut self, pid: Option<u32>) -> (target: Option<u32>)
        requires
            !old(self)@.busy,
        ensures
            target == pid,
            pid is Some ==> final(self)@ == old(self)@,
            pid is None ==> final(self)@ == settled_view(
                ConnectionState::Disconnected,
                StatusMessage::NoConnection,
            ),
    {
        if pid.is_none() {
            *self = ConnectionController {
                state: ConnectionState::Disconnected,
                detail: StatusDetail::Message(StatusMessage::NoConnection),
                busy: false,
            };
        }
        pid
    }

    /// Whether the PID belongs to OpenConnect. Only a PID found to be
    /// OpenConnect's comes back, as the one value that a disconnection can
    /// start with; otherwise the state file cannot be trusted and the
    /// disconnection stops.
    pub fn apply_managed_probe(&mut self, pid: u32, managed: bool) -> (validated: Option<
        ValidatedPid,
    >)
        requires
            !old(self)@.busy,
        ensures
            managed ==> (validated matches Some(v) && v.spec_pid() == pid),
            managed ==> final(self)@ == old(self)@,
            !managed ==> validated is None && final(self)@ == failed_view(
                StatusDetail::Message(StatusMessage::InvalidStateFile),
            ),
    {
        if !managed {
            *self = ConnectionController {
                state: ConnectionState::Error,
                detail: StatusDetail::Message(StatusMessage::InvalidStateFile),
                busy: false,
            };
            return None;
        }
        Some(ValidatedPid { pid })
    }

    /// A worker now disconnects; the PID that it stops is the validated one.
    pub fn disconnection_started(&mut self, target: ValidatedPid) -> (pid: u32)
        requires
            !old(self)@.busy,
        ensures
            pid == target.spec_pid(),
            final(self)@ == (ControllerView {
                state: ConnectionState::Disconnecting,
                detail: StatusDetail::Message(StatusMessage::ClosingTunnel),
                busy: true,
            }),
    {
        *self = ConnectionController {
            state: ConnectionState::Disconnecting,
            detail: StatusDetail::Message(StatusMessage::ClosingTunnel),
            busy: true,
        };
        target.pid
    }

    /// The report of the worker. Without a worker, or while it has not
    /// reported, nothing changes; any report ends the operation.
    pub fn on_worker_event(&mut self, event: WorkerEvent) -> (action: WorkerAction)
        ensures
            (!old(self)@.busy || event is Pending) ==> action == WorkerAction::Wait && final(self)@
                == old(self)@,
            old(self)@.busy && !(event is Pending) ==> !final(self)@.busy && action
                != WorkerAction::Wait,
            old(self)@.busy ==> match event {
                WorkerEvent::Connected { verified } => action == WorkerAction::FinishStoringSession
                    && final(self)@ == settled_view(
                    ConnectionState::Connected,
                    if verified {
                        StatusMessage::ConnectionVerified
                    } else {
                        StatusMessage::ConnectionUnverified
                    },
                ),
                WorkerEvent::ConnectFailed(error) => action == WorkerAction::Finish && final(self)@
                    == failed_view(StatusDetail::BackendError(error)),
                WorkerEvent::Disconnected => action == WorkerAction::FinishClearingSession
                    && final(self)@ == settled_view(
                    ConnectionState::Disconnected,
                    StatusMessage::VpnDisconnected,
                ),
                WorkerEvent::DisconnectFailed(error) => action == WorkerAction::Finish
                    && final(self)@ == failed_view(StatusDetail::BackendError(error)),
                WorkerEvent::Pending => true,
                WorkerEvent::ChannelClosed => action == WorkerAction::Finish && final(self)@
                    == failed_view(StatusDetail::Message(StatusMessage::OperationInterrupted)),
            },
    {
        if !self.busy {
            return WorkerAction::Wait;
        }
        match event {
            WorkerEvent::Connected { verified } => {
                let message = if verified {
                    StatusMessage::ConnectionVerified
                } else {
                    StatusMessage::ConnectionUnverified
                };
                *self = ConnectionController {
                    state: ConnectionState::Connected,
                    detail: StatusDetail::Message(message),
                    busy: false,
                };
                WorkerAction::FinishStoringSession
            },
            WorkerEvent::ConnectFailed(error) => {
                *self = ConnectionController {
                    state: ConnectionState::Error,
                    detail: StatusDetail::BackendError(error),
                    busy: false,
                };
                WorkerAction::Finish
            },
            WorkerEvent::Disconnected => {
                *self = ConnectionController {
                    state: ConnectionState::Disconnected,
                    detail: StatusDetail::Message(StatusMessage::VpnDisconnected),
                    busy: false,
                };
                WorkerAction::FinishClearingSession
            },
            WorkerEvent::DisconnectFailed(error) => {
                *self = ConnectionController {
                    state: ConnectionState::Error,
                    detail: StatusDetail::BackendError(error),
                    busy: false,
                };
                WorkerAction::Finish
            },
            WorkerEvent::Pending => WorkerAction::Wait,
            WorkerEvent::ChannelClosed => {
                *self = ConnectionController {
                    state: ConnectionState::Error,
                    detail: StatusDetail::Message(StatusMessage::OperationInterrupted),
                    busy: false,
                };
                WorkerAction::Finish
            },
        }
    }

    /// The periodic check runs when its interval has passed and no worker
    /// runs.
    pub fn poll_due(&self, interval_elapsed: bool) -> (due: bool)
        ensures
            due == (interval_elapsed && !self@.busy),
    {
        interval_elapsed && !self.busy
    }

    /// What polling the session told.
    pub fn on_session_poll(&mut self, polled: Result<SessionStatus, VpnBackendError>) -> (action:
        PollAction)
        requires
            !old(self)@.busy,
        ensures
            polled == Ok::<SessionStatus, VpnBackendError>(SessionStatus::Active) ==> action
                == PollAction::Continue && final(self)@ == old(self)@,
            polled == Ok::<SessionStatus, VpnBackendError>(SessionStatus::Exited) ==> action
                == PollAction::ClearState && final(self)@ == settled_view(
                ConnectionState::Disconnected,
                StatusMessage::ConnectionEnded,
            ),
            polled matches Err(error) ==> action == PollAction::DropSession && final(self)@
                == failed_view(StatusDetail::BackendError(error)),
    {
        match polled {
            Ok(SessionStatus::Active) => PollAction::Continue,
            Ok(SessionStatus::Exited) => {
                *self = ConnectionController {
                    state: ConnectionState::Disconnected,
                    detail: StatusDetail::Message(StatusMessage::ConnectionEnded),
                    busy: false,
                };
                PollAction::ClearState
            },
            Err(error) => {
                *self = ConnectionController {
                    state: ConnectionState::Error,
                    detail: StatusDetail::BackendError(error),
                    busy: false,
                };
                PollAction::DropSession
            },
        }
    }

    /// Whether the periodic check asks the backend if the tunnel still runs.
    pub fn needs_liveness_check(&self) -> (needed: bool)
        ensures
            needed == (self@.state == ConnectionState::Connected),
    {
        self.state == ConnectionState::Connected
    }

    /// A connected window whose tunnel is gone ends its session; `true`
    /// asks the window to end its session and clear the backend's state.
    pub fn on_liveness(&mut self, connected: bool) -> (ended: bool)
        ensures
            ended == (old(self)@.state == ConnectionState::Connected && !connected),
            ended ==> final(self)@ == settled_view(
                ConnectionState::Disconnected,
                StatusMessage::ConnectionEnded,
            ),
            !ended ==> final(self)@ == old(self)@,
    {
        if self.state == ConnectionState::Connected && !connected {
            *self = ConnectionController {
                state: ConnectionState::Disconnected,
                detail: StatusDetail::Message(StatusMessage::ConnectionEnded),
                busy: false,
            };
            true
        } else {
            false
        }
    }
}

} // verus!
