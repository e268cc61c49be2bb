mod openconnect;
pub mod openconnect_support;

pub use openconnect::{
    append_limited_log, ascii_chars, ascii_command_output, attempt_progress, child_pids, command_output,
    connection_exit_error, connection_failure, connect_result, error_text, session_pid, is_ascii_bytes, is_openconnect_comm,
    kill_outcome, output_says_connected, output_text, law_attempt_progress, law_error_text, law_output_text, law_parsed_pids, law_limited_log, law_pid_from_file, law_preflight, law_openconnect_args_shape, law_says_connected_markers, law_search_exhausted, law_search_found, parsed_pids, reached, search_wf, pid_from_file, says_connected,
    session_status, spec_attempt_progress, spec_command_error, spec_command_output,
    spec_limited_log, spec_openconnect_args, spec_pid_from_file, spec_preflight, strings_view,
    utf8_lossy, law_launch_ignores_password, spec_launch_args, ConnectionLaunch, LaunchView,
    SessionRecord, SessionView, AttemptProgress, ConfigView, ConnectionAttemptError, DisconnectCheck, DisconnectWatch, OpenConnectBackend,
    PidSearch, ProcessEntry, ProcessWait, SearchView, AUTHORIZATION_REFUSED_CODE, COMMAND_ERROR_LIMIT, COMMAND_LOG_LIMIT,
    DISCONNECT_CHECKS,
};
