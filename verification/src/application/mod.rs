mod vpn;

pub use vpn::{
    BackendErrorMessage, SessionStatus, VpnBackendError, VpnBackend, VpnBackendResult, VpnSession,
};
