use vstd::prelude::*;

verus! {

/// Where the VPN connection stands, as the user sees it.
#[derive(Clone, Copy, Debug, PartialEq, Eq, Structural)]
pub enum ConnectionState {
    Disconnected,
    Connecting,
    Connected,
    Disconnecting,
    Error,
}

/// The one action offered by the main button.
#[derive(Clone, Copy, Debug, PartialEq, Eq, Structural)]
pub enum PrimaryAction {
    Connect,
    Disconnect,
}

/// The text shown for each state.
pub open spec fn state_label(state: ConnectionState) -> Seq<char> {
    match state {
        ConnectionState::Disconnected => "Desconectada"@,
        ConnectionState::Connecting => "Conectando…"@,
        ConnectionState::Connected => "Conectada"@,
        ConnectionState::Disconnecting => "Desconectando…"@,
        ConnectionState::Error => "Atenção necessária"@,
    }
}

/// How many signal lamps a state lights: none, half or full.
pub open spec fn state_signal(state: ConnectionState) -> nat {
    match state {
        ConnectionState::Disconnected | ConnectionState::Error => 0,
        ConnectionState::Connecting | ConnectionState::Disconnecting => 1,
        ConnectionState::Connected => 2,
    }
}

/// A state in which an operation is under way.
pub open spec fn is_transitional(state: ConnectionState) -> bool {
    state == ConnectionState::Connecting || state == ConnectionState::Disconnecting
}

/// The action that the main button performs, if any.
pub open spec fn spec_primary_action(state: ConnectionState, busy: bool) -> Option<PrimaryAction> {
    if busy {
        None
    } else {
        match state {
            ConnectionState::Disconnected | ConnectionState::Error => Some(PrimaryAction::Connect),
            ConnectionState::Connected => Some(PrimaryAction::Disconnect),
            ConnectionState::Connecting | ConnectionState::Disconnecting => None,
        }
    }
}

impl ConnectionState {
    pub fn label(self) -> (label: &'static str)
        ensures
            label@ == state_label(self),
    {
        match self {
            ConnectionState::Disconnected => "Desconectada",
            ConnectionState::Connecting => "Conectando…",
            ConnectionState::Connected => "Conectada",
            ConnectionState::Disconnecting => "Desconectando…",
            ConnectionState::Error => "Atenção necessária",
        }
    }

    pub fn signal_index(self) -> (index: usize)
        ensures
            index == state_signal(self),
            index <= 2,
    {
        match self {
            ConnectionState::Disconnected | ConnectionState::Error => 0,
            ConnectionState::Connecting | ConnectionState::Disconnecting => 1,
            ConnectionState::Connected => 2,
        }
    }
}

/// A busy window offers no action; an idle one offers to connect when
/// disconnected or failed, to disconnect when connected, and nothing during
/// an operation.
pub proof fn law_primary_action(state: ConnectionState, busy: bool)
    ensures
        busy ==> spec_primary_action(state, busy) is None,
        spec_primary_action(state, busy) == Some(PrimaryAction::Connect) <==> (!busy && (state
            == ConnectionState::Disconnected || state == ConnectionState::Error)),
        spec_primary_action(state, busy) == Some(PrimaryAction::Disconnect) <==> (!busy && state
            == ConnectionState::Connected),
        is_transitional(state) ==> spec_primary_action(state, busy) is None,
{
}

pub fn primary_action_for(state: ConnectionState, busy: bool) -> (action: Option<PrimaryAction>)
    ensures
        action == spec_primary_action(state, busy),
{
    if busy {
        return None;
    }
    match state {
        ConnectionState::Disconnected | ConnectionState::Error => Some(PrimaryAction::Connect),
        ConnectionState::Connected => Some(PrimaryAction::Disconnect),
        ConnectionState::Connecting | ConnectionState::Disconnecting => None,
    }
}

} // verus!
