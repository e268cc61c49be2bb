pub use super::openconnect::{command_error, openconnect_args, OpenConnectConfig};
