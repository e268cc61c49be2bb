mod connection;
mod credentials;
mod secret;

pub use connection::{
    is_transitional, law_primary_action, primary_action_for, spec_primary_action, state_label, state_signal,
    ConnectionState, PrimaryAction,
};
pub use credentials::{
    credential_error_message, law_all_protocols_listed, law_server_accepts_any_text_without_spaces, law_server_address_canonical,
    law_username_accepts_any_non_empty_text, law_username_canonical,
    protocol_label, protocol_openconnect_name, server_from_text,
    username_from_text, CredentialError, Credentials, ServerAddress, Username, VpnProtocol,
};
pub use secret::Password;
