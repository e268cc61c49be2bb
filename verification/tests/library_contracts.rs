use openconnect_vpn_gui::{
    application::{BackendErrorMessage, SessionStatus, VpnBackendError},
    domain::{
        primary_action_for, ConnectionState, CredentialError, Credentials, Password,
        PrimaryAction, ServerAddress, Username, VpnProtocol,
    },
    infrastructure::{
        append_limited_log, attempt_progress, child_pids, command_output, connect_result,
        connection_exit_error, connection_failure, is_openconnect_comm, kill_outcome,
        output_says_connected, pid_from_file, session_pid, session_status, AttemptProgress,
        ConnectionAttemptError, DisconnectCheck, DisconnectWatch, OpenConnectBackend, PidSearch,
        ProcessWait,
        SessionRecord, COMMAND_LOG_LIMIT, DISCONNECT_CHECKS,
    },
    infrastructure::openconnect_support::{command_error, openconnect_args, OpenConnectConfig},
    i18n::{detail_text, Language},
    ui::{
        ButtonLabel, ConnectionController, PollAction, PrimaryButton, StatusDetail,
        StatusMessage, WorkerAction, WorkerEvent,
    },
};

#[test]
fn connection_states_have_labels_and_signals() {
    assert_eq!(ConnectionState::Disconnected.label(), "Desconectada");
    assert_eq!(ConnectionState::Connecting.label(), "Conectando…");
    assert_eq!(ConnectionState::Connected.label(), "Conectada");
    assert_eq!(ConnectionState::Disconnecting.label(), "Desconectando…");
    assert_eq!(ConnectionState::Error.label(), "Atenção necessária");
    assert_eq!(ConnectionState::Disconnected.signal_index(), 0);
    assert_eq!(ConnectionState::Error.signal_index(), 0);
    assert_eq!(ConnectionState::Connecting.signal_index(), 1);
    assert_eq!(ConnectionState::Disconnecting.signal_index(), 1);
    assert_eq!(ConnectionState::Connected.signal_index(), 2);
}

#[test]
fn busy_window_offers_no_action_in_any_state() {
    for state in [
        ConnectionState::Disconnected,
        ConnectionState::Connecting,
        ConnectionState::Connected,
        ConnectionState::Disconnecting,
        ConnectionState::Error,
    ] {
        assert_eq!(primary_action_for(state, true), None);
    }
}

#[test]
fn protocols_have_labels_and_openconnect_names() {
    assert_eq!(VpnProtocol::default(), VpnProtocol::AnyConnect);
    let expected = [
        (VpnProtocol::AnyConnect, "Cisco AnyConnect / OpenConnect", "anyconnect"),
        (VpnProtocol::CiscoSecure, "Cisco Secure Client (AnyConnect)", "anyconnect"),
        (VpnProtocol::Ocserv, "OpenConnect Server (ocserv)", "anyconnect"),
        (VpnProtocol::PanGp, "Palo Alto Networks GlobalProtect", "gp"),
        (VpnProtocol::PrismaAccess, "Prisma Access (GlobalProtect)", "gp"),
        (VpnProtocol::Pulse, "Pulse Secure", "pulse"),
        (VpnProtocol::Ivanti, "Ivanti Connect Secure", "pulse"),
        (VpnProtocol::Juniper, "Juniper Network Connect", "nc"),
        (VpnProtocol::F5, "F5 BIG-IP", "f5"),
        (VpnProtocol::Fortinet, "Fortinet FortiGate", "fortinet"),
        (VpnProtocol::Array, "Array Networks AG SSL VPN", "array"),
    ];
    assert_eq!(VpnProtocol::ALL.len(), expected.len());
    for (index, (protocol, label, name)) in expected.into_iter().enumerate() {
        assert_eq!(VpnProtocol::ALL[index], protocol);
        assert_eq!(protocol.label(), label);
        assert_eq!(protocol.openconnect_name(), name);
    }
}

#[test]
fn credential_errors_have_messages() {
    assert_eq!(CredentialError::EmptyServer.message(), "Informe o servidor VPN.");
    assert_eq!(
        CredentialError::InvalidServer.message(),
        "Informe um servidor VPN sem espaços."
    );
    assert_eq!(CredentialError::EmptyUsername.message(), "Informe o usuário.");
    assert_eq!(CredentialError::EmptyPassword.message(), "Informe a senha.");
}

#[test]
fn server_address_is_trimmed_and_refused_with_the_right_error() {
    assert_eq!(
        ServerAddress::parse("  vpn.example.org \n").unwrap().as_str(),
        "vpn.example.org"
    );
    assert_eq!(
        ServerAddress::parse("\u{3000}vpn.example.org\u{2003}").unwrap().as_str(),
        "vpn.example.org"
    );
    assert_eq!(ServerAddress::parse(""), Err(CredentialError::EmptyServer));
    assert_eq!(ServerAddress::parse(" \t\r\n"), Err(CredentialError::EmptyServer));
    assert_eq!(
        ServerAddress::parse("vpn example org"),
        Err(CredentialError::InvalidServer)
    );
    assert_eq!(
        ServerAddress::parse("vpn\u{00A0}example"),
        Err(CredentialError::InvalidServer)
    );
    assert_eq!(
        ServerAddress::parse("séo.exemplo.br").unwrap().as_str(),
        "séo.exemplo.br"
    );
}

#[test]
fn parsed_server_and_username_parse_to_themselves() {
    let server = ServerAddress::parse("  vpn.example.org/portal  ").unwrap();
    assert_eq!(ServerAddress::parse(server.as_str()), Ok(server.clone()));
    let name = Username::parse("\tuser name@example.org ").unwrap();
    assert_eq!(name.as_str(), "user name@example.org");
    assert_eq!(Username::parse(name.as_str()), Ok(name.clone()));
}

#[test]
fn username_is_trimmed_and_empty_one_is_refused() {
    assert_eq!(Username::parse(" alice ").unwrap().as_str(), "alice");
    assert_eq!(Username::parse(""), Err(CredentialError::EmptyUsername));
    assert_eq!(Username::parse("   "), Err(CredentialError::EmptyUsername));
}

#[test]
fn password_keeps_its_text() {
    let password = Password::new(String::from("s3cr3t"));
    assert!(!password.is_empty());
    assert_eq!(password.as_str(), "s3cr3t");
    assert!(Password::new(String::new()).is_empty());
}

#[test]
fn credentials_need_a_password_and_give_back_their_parts() {
    let server = ServerAddress::parse("vpn.example.org").unwrap();
    let username = Username::parse("alice").unwrap();
    let refused = Credentials::new(
        server.clone(),
        VpnProtocol::Pulse,
        username.clone(),
        Password::new(String::new()),
    );
    assert!(matches!(refused, Err(CredentialError::EmptyPassword)));

    let credentials = Credentials::new(
        server.clone(),
        VpnProtocol::Pulse,
        username.clone(),
        Password::new(String::from("pw")),
    )
    .ok()
    .unwrap();
    let (s, p, u, pw) = credentials.into_parts();
    assert_eq!(s, server);
    assert_eq!(p, VpnProtocol::Pulse);
    assert_eq!(u, username);
    assert_eq!(pw.as_str(), "pw");
}

#[test]
fn backend_errors_keep_their_message_and_kind() {
    let plain = VpnBackendError::new(String::from("falhou"));
    assert_eq!(plain.message(), "falhou");
    assert_eq!(plain.localized_message(), None);
    let localized = VpnBackendError::localized(BackendErrorMessage::OpenConnectNotFound);
    assert_eq!(localized.message(), "");
    assert_eq!(
        localized.localized_message(),
        Some(BackendErrorMessage::OpenConnectNotFound)
    );
    let detailed = VpnBackendError::localized_with_detail(
        BackendErrorMessage::DisconnectFailed,
        String::from("not permitted"),
    );
    assert_eq!(detailed.message(), "not permitted");
    assert_eq!(
        detailed.localized_message(),
        Some(BackendErrorMessage::DisconnectFailed)
    );
    assert_eq!(VpnBackendError::from(String::from("x")), VpnBackendError::new(String::from("x")));
    assert_eq!(VpnBackendError::from("y"), VpnBackendError::new(String::from("y")));
}

#[test]
fn openconnect_args_are_exactly_the_documented_list() {
    let args = openconnect_args("vpn.example.org", VpnProtocol::Juniper, "bob");
    assert_eq!(
        args,
        vec![
            "--protocol=nc".to_string(),
            "vpn.example.org".to_string(),
            "--user".to_string(),
            "bob".to_string(),
            "--passwd-on-stdin".to_string(),
            "--non-inter".to_string(),
        ]
    );
}

#[test]
fn command_output_prefers_stderr_and_collapses_whitespace() {
    assert_eq!(command_output(b"  a \n\n b\t", b"out"), "a b");
    assert_eq!(command_output(b" \n\t ", b"  the   output "), "the output");
    assert_eq!(command_output(b"", b""), "");
    assert_eq!(command_output(&[0xff, b' ', b'z'], b""), "\u{FFFD} z");
    let once = command_output(b" x\x0by  z ", b"");
    assert_eq!(command_output(once.as_bytes(), b""), once);
}

#[test]
fn command_error_without_output_is_the_prefix() {
    assert_eq!(command_error("Erro", b" \n", b"\t"), "Erro");
    let exact = vec![b'y'; 300];
    let message = command_error("E", &exact, b"");
    assert_eq!(message.chars().count(), 1 + 2 + 300);
    assert!(message.starts_with("E: yyy"));
}

#[test]
fn limited_log_keeps_the_newest_bytes() {
    let mut log = vec![1u8, 2, 3];
    append_limited_log(&mut log, &[4, 5]);
    assert_eq!(log, vec![1, 2, 3, 4, 5]);

    let mut full: Vec<u8> = (0..COMMAND_LOG_LIMIT).map(|i| (i % 251) as u8).collect();
    append_limited_log(&mut full, &[7, 8, 9]);
    assert_eq!(full.len(), COMMAND_LOG_LIMIT);
    assert_eq!(&full[full.len() - 3..], &[7, 8, 9]);
    assert_eq!(full[0], (3 % 251) as u8);
}

#[test]
fn connected_output_is_recognized_in_any_case() {
    assert!(output_says_connected(b"Got CONNECT response\nConnected as 10.0.0.2"));
    assert!(output_says_connected(b"ESP session established with server"));
    assert!(output_says_connected(b"xx CSTP Connected. DPD 30"));
    assert!(!output_says_connected(b"Connecting to vpn.example.org"));
    assert!(!output_says_connected(b""));
}

#[test]
fn exited_connection_process_is_read_by_code_and_output() {
    assert!(matches!(
        connection_exit_error(Some(126), b"anything"),
        ConnectionAttemptError::Cancelled
    ));
    assert!(matches!(
        connection_exit_error(Some(1), b""),
        ConnectionAttemptError::Unavailable
    ));
    assert!(matches!(
        connection_exit_error(None, b""),
        ConnectionAttemptError::Unavailable
    ));
    match connection_exit_error(Some(2), b"auth\n  failed ") {
        ConnectionAttemptError::Local(error) => {
            assert_eq!(
                error.localized_message(),
                Some(BackendErrorMessage::ConnectionStartFailed)
            );
            assert_eq!(error.message(), "auth failed");
        }
        other => panic!("unexpected {other:?}"),
    }
}

#[test]
fn attempt_errors_are_reported_as_backend_errors() {
    assert_eq!(
        connection_failure(ConnectionAttemptError::Cancelled).localized_message(),
        Some(BackendErrorMessage::AuthorizationCancelled)
    );
    assert_eq!(
        connection_failure(ConnectionAttemptError::Unavailable).localized_message(),
        Some(BackendErrorMessage::ConnectionUnavailable)
    );
    let local = VpnBackendError::new(String::from("disk full"));
    assert_eq!(
        connection_failure(ConnectionAttemptError::Local(local.clone())),
        local
    );
}

#[test]
fn attempt_progress_waits_for_output_or_the_window() {
    assert_eq!(attempt_progress(true, None, false), AttemptProgress::Connected);
    assert_eq!(attempt_progress(true, Some(9), true), AttemptProgress::Connected);
    assert_eq!(attempt_progress(false, Some(9), true), AttemptProgress::Unverified(9));
    assert_eq!(attempt_progress(false, Some(9), false), AttemptProgress::Waiting);
    assert_eq!(attempt_progress(false, None, true), AttemptProgress::Waiting);
}

#[test]
fn session_status_follows_the_process() {
    assert_eq!(
        session_status(ProcessWait::Exited, true, true),
        Ok(SessionStatus::Exited)
    );
    assert_eq!(
        session_status(ProcessWait::Running, true, true),
        Ok(SessionStatus::Active)
    );
    assert_eq!(
        session_status(ProcessWait::Running, true, false),
        Ok(SessionStatus::Exited)
    );
    assert_eq!(
        session_status(ProcessWait::Running, false, false),
        Ok(SessionStatus::Active)
    );
    assert_eq!(
        session_status(ProcessWait::Failed, true, true).unwrap_err().localized_message(),
        Some(BackendErrorMessage::ProcessMonitoringFailed)
    );
}

#[test]
fn kill_and_disconnect_checks() {
    assert!(kill_outcome(true, b"ignored").is_ok());
    let error = kill_outcome(false, b" Operation not\npermitted ").unwrap_err();
    assert_eq!(error.localized_message(), Some(BackendErrorMessage::DisconnectFailed));
    assert_eq!(error.message(), "Operation not permitted");

    let mut watch = DisconnectWatch::new();
    assert!(matches!(watch.check(false), DisconnectCheck::Gone));
    let mut watch = DisconnectWatch::new();
    for _ in 1..DISCONNECT_CHECKS {
        assert!(matches!(watch.check(true), DisconnectCheck::CheckAgain));
    }
    match watch.check(true) {
        DisconnectCheck::StillActive(error) => assert_eq!(
            error.localized_message(),
            Some(BackendErrorMessage::DisconnectStillActive)
        ),
        _ => panic!("the tunnel should be reported as still active"),
    }
    assert!(matches!(watch.check(true), DisconnectCheck::StillActive(_)));
    assert!(matches!(watch.check(false), DisconnectCheck::Gone));
}

#[test]
fn pid_files_and_proc_entries_are_read() {
    assert_eq!(pid_from_file(" 1234\n"), Some(1234));
    assert_eq!(pid_from_file("+42"), Some(42));
    assert_eq!(pid_from_file("4294967295"), Some(4294967295));
    assert_eq!(pid_from_file("4294967296"), None);
    assert_eq!(pid_from_file("1"), None);
    assert_eq!(pid_from_file("0"), None);
    assert_eq!(pid_from_file("-5"), None);
    assert_eq!(pid_from_file("12a"), None);
    assert_eq!(pid_from_file("+"), None);
    assert_eq!(pid_from_file(""), None);

    assert!(is_openconnect_comm("openconnect\n"));
    assert!(!is_openconnect_comm("openconnect2\n"));
    assert!(!is_openconnect_comm("pkexec\n"));

    assert_eq!(child_pids("12 34 abc 56\n"), vec![12, 34, 56]);
    assert_eq!(child_pids(""), Vec::<u32>::new());
}

#[test]
fn pid_search_walks_the_tree_depth_first() {
    // 1 has children 2 and 3; 2 has child 4; 3 runs OpenConnect, and so does 5 under 4.
    let mut search = PidSearch::new(1, true);
    assert_eq!(search.next_pid(), Some(1));
    search.record(false, &[2, 3]);
    assert_eq!(search.next_pid(), Some(2));
    search.record(false, &[4]);
    assert_eq!(search.next_pid(), Some(4));
    search.record(false, &[5]);
    assert_eq!(search.next_pid(), Some(5));
    search.record(true, &[]);
    assert_eq!(search.next_pid(), None);
    assert_eq!(search.found(), Some(5));
    assert!(search.well_formed());

    let mut exhausted = PidSearch::new(10, true);
    assert_eq!(exhausted.next_pid(), Some(10));
    assert_eq!(exhausted.next_pid(), Some(10));
    exhausted.record(false, &[11]);
    assert_eq!(exhausted.next_pid(), Some(11));
    exhausted.record(false, &[]);
    assert_eq!(exhausted.next_pid(), None);
    assert_eq!(exhausted.found(), None);

    let mut supervisor_is_it = PidSearch::new(7, true);
    assert_eq!(supervisor_is_it.next_pid(), Some(7));
    supervisor_is_it.record(true, &[8]);
    assert_eq!(supervisor_is_it.found(), Some(7));

    let mut elsewhere = PidSearch::new(9, false);
    assert_eq!(elsewhere.next_pid(), None);
    assert_eq!(elsewhere.found(), Some(9));
}

#[test]
fn session_pid_and_connect_result() {
    assert_eq!(session_pid(Some(3), Some(4), 5), 3);
    assert_eq!(session_pid(None, Some(4), 5), 4);
    assert_eq!(session_pid(None, None, 5), 5);

    assert_eq!(connect_result::<u8>(Ok(1)), Ok(1));
    assert_eq!(
        connect_result::<u8>(Err(ConnectionAttemptError::Cancelled))
            .unwrap_err()
            .localized_message(),
        Some(BackendErrorMessage::AuthorizationCancelled)
    );
    assert_eq!(
        connect_result::<u8>(Err(ConnectionAttemptError::Unavailable))
            .unwrap_err()
            .localized_message(),
        Some(BackendErrorMessage::ConnectionUnavailable)
    );
}

#[test]
fn valid_utf8_output_is_quoted_unchanged() {
    assert_eq!(
        command_error("Erro", "falha  na\nconexão".as_bytes(), b""),
        "Erro: falha na conexão"
    );
    assert!(output_says_connected("Conexão: CONNECTED AS ação".as_bytes()));
}

#[test]
fn backend_configuration_and_checks() {
    let config = OpenConnectConfig::default();
    assert_eq!(config.openconnect(), "/usr/sbin/openconnect");
    assert_eq!(config.pkexec(), "/usr/bin/pkexec");
    assert_eq!(config.kill(), "/bin/kill");
    let backend = OpenConnectBackend::new(config);
    assert_eq!(backend.config().kill(), "/bin/kill");
    assert_eq!(
        OpenConnectBackend::default().config().openconnect(),
        "/usr/sbin/openconnect"
    );

    assert!(backend.ensure_supported_platform(true).is_ok());
    assert_eq!(
        backend.ensure_supported_platform(false).unwrap_err().localized_message(),
        Some(BackendErrorMessage::UnsupportedPlatform)
    );
    assert!(backend.preflight(true, true, true).is_ok());
    assert_eq!(
        backend.preflight(false, false, false).unwrap_err().localized_message(),
        Some(BackendErrorMessage::UnsupportedPlatform)
    );
    assert_eq!(
        backend.preflight(true, false, false).unwrap_err().localized_message(),
        Some(BackendErrorMessage::OpenConnectNotFound)
    );
    assert_eq!(
        backend.preflight(true, true, false).unwrap_err().localized_message(),
        Some(BackendErrorMessage::PkexecNotFound)
    );
}

#[test]
fn new_window_shows_whether_a_tunnel_runs() {
    let idle = ConnectionController::new(false);
    assert_eq!(idle.state(), ConnectionState::Disconnected);
    assert!(matches!(
        idle.detail(),
        StatusDetail::Message(StatusMessage::EnterCredentials)
    ));
    assert!(!idle.is_busy());
    assert_eq!(idle.primary_action(), Some(PrimaryAction::Connect));
    assert!(idle.form_enabled());

    let connected = ConnectionController::new(true);
    assert_eq!(connected.state(), ConnectionState::Connected);
    assert!(matches!(
        connected.detail(),
        StatusDetail::Message(StatusMessage::AlreadyConnected)
    ));
    assert_eq!(connected.primary_action(), Some(PrimaryAction::Disconnect));
    assert!(!connected.form_enabled());
}

#[test]
fn form_is_checked_server_first_then_user_then_password() {
    let mut window = ConnectionController::new(false);
    let empty = Password::new(String::new());
    let filled = Password::new(String::from("pw"));

    assert!(window.check_form("", "", &empty).is_none());
    assert!(matches!(
        window.detail(),
        StatusDetail::CredentialError(CredentialError::EmptyServer)
    ));
    assert_eq!(window.state(), ConnectionState::Error);

    assert!(window.check_form("a b", "", &empty).is_none());
    assert!(matches!(
        window.detail(),
        StatusDetail::CredentialError(CredentialError::InvalidServer)
    ));

    assert!(window.check_form("vpn.exemplo.org", " ", &empty).is_none());
    assert!(matches!(
        window.detail(),
        StatusDetail::CredentialError(CredentialError::EmptyUsername)
    ));

    assert!(window.check_form("vpn.exemplo.org", "invalido", &empty).is_none());
    assert!(matches!(
        window.detail(),
        StatusDetail::CredentialError(CredentialError::EmptyPassword)
    ));

    let (server, user) = window
        .check_form(" vpn.exemplo.org ", " ana ", &filled)
        .unwrap();
    assert_eq!(server.as_str(), "vpn.exemplo.org");
    assert_eq!(user.as_str(), "ana");
    assert_eq!(window.state(), ConnectionState::Error);
}

#[test]
fn connection_flow_moves_through_the_states() {
    let mut window = ConnectionController::new(false);
    assert!(window.apply_preflight(Ok(())));
    assert!(window.apply_connected_probe(false));
    window.connection_started();
    assert_eq!(window.state(), ConnectionState::Connecting);
    assert!(window.is_busy());
    assert_eq!(window.primary_action(), None);
    assert_eq!(
        window.primary_button(),
        PrimaryButton { label: ButtonLabel::Wait, enabled: false }
    );
    assert!(window.repaint_quickly());
    assert!(!window.poll_due(true));

    assert_eq!(window.on_worker_event(WorkerEvent::Pending), WorkerAction::Wait);
    assert!(window.is_busy());
    assert_eq!(
        window.on_worker_event(WorkerEvent::Connected { verified: false }),
        WorkerAction::FinishStoringSession
    );
    assert!(!window.is_busy());
    assert_eq!(window.state(), ConnectionState::Connected);
    assert!(matches!(
        window.detail(),
        StatusDetail::Message(StatusMessage::ConnectionUnverified)
    ));
    assert_eq!(
        window.primary_button(),
        PrimaryButton { label: ButtonLabel::Disconnect, enabled: true }
    );

    assert_eq!(window.disconnect_target(Some(77)), Some(77));
    let validated = window.apply_managed_probe(77, true).unwrap();
    assert_eq!(validated.pid(), 77);
    assert_eq!(window.disconnection_started(validated), 77);
    assert_eq!(window.state(), ConnectionState::Disconnecting);
    assert_eq!(
        window.on_worker_event(WorkerEvent::Disconnected),
        WorkerAction::FinishClearingSession
    );
    assert_eq!(window.state(), ConnectionState::Disconnected);
    assert!(matches!(
        window.detail(),
        StatusDetail::Message(StatusMessage::VpnDisconnected)
    ));
}

#[test]
fn failures_and_refusals_end_in_the_error_state() {
    let mut window = ConnectionController::new(false);
    let failure = VpnBackendError::localized(BackendErrorMessage::PkexecNotFound);
    assert!(!window.apply_preflight(Err(failure.clone())));
    assert_eq!(window.state(), ConnectionState::Error);
    assert!(matches!(window.detail(), StatusDetail::BackendError(e) if *e == failure));
    assert_eq!(window.primary_action(), Some(PrimaryAction::Connect));

    assert!(!window.apply_connected_probe(true));
    assert_eq!(window.state(), ConnectionState::Connected);

    let mut window = ConnectionController::new(false);
    window.connection_started();
    assert_eq!(
        window.on_worker_event(WorkerEvent::ChannelClosed),
        WorkerAction::Finish
    );
    assert!(matches!(
        window.detail(),
        StatusDetail::Message(StatusMessage::OperationInterrupted)
    ));

    let mut window = ConnectionController::new(true);
    assert_eq!(window.disconnect_target(None), None);
    assert_eq!(window.state(), ConnectionState::Disconnected);
    assert!(matches!(
        window.detail(),
        StatusDetail::Message(StatusMessage::NoConnection)
    ));

    let mut window = ConnectionController::new(true);
    assert!(window.apply_managed_probe(9, false).is_none());
    assert!(matches!(
        window.detail(),
        StatusDetail::Message(StatusMessage::InvalidStateFile)
    ));

    let mut window = ConnectionController::new(true);
    let validated = window.apply_managed_probe(42, true).unwrap();
    window.disconnection_started(validated);
    let refused = VpnBackendError::new(String::from("kill failed"));
    assert_eq!(
        window.on_worker_event(WorkerEvent::DisconnectFailed(refused)),
        WorkerAction::Finish
    );
    assert_eq!(window.state(), ConnectionState::Error);
}

#[test]
fn events_without_a_worker_change_nothing() {
    let mut window = ConnectionController::new(true);
    assert_eq!(
        window.on_worker_event(WorkerEvent::Disconnected),
        WorkerAction::Wait
    );
    assert_eq!(window.state(), ConnectionState::Connected);
}

#[test]
fn periodic_check_ends_a_vanished_session() {
    let mut window = ConnectionController::new(true);
    assert!(window.poll_due(true));
    assert!(!window.poll_due(false));
    assert_eq!(
        window.on_session_poll(Ok(SessionStatus::Active)),
        PollAction::Continue
    );
    assert!(window.needs_liveness_check());
    assert!(!window.on_liveness(true));
    assert_eq!(window.state(), ConnectionState::Connected);
    assert!(window.on_liveness(false));
    assert_eq!(window.state(), ConnectionState::Disconnected);
    assert!(matches!(
        window.detail(),
        StatusDetail::Message(StatusMessage::ConnectionEnded)
    ));
    assert!(!window.needs_liveness_check());
    assert!(!window.on_liveness(false));

    let mut window = ConnectionController::new(true);
    assert_eq!(
        window.on_session_poll(Ok(SessionStatus::Exited)),
        PollAction::ClearState
    );
    assert_eq!(window.state(), ConnectionState::Disconnected);

    let mut window = ConnectionController::new(true);
    let failure = VpnBackendError::localized(BackendErrorMessage::ProcessMonitoringFailed);
    assert_eq!(window.on_session_poll(Err(failure)), PollAction::DropSession);
    assert_eq!(window.state(), ConnectionState::Error);
}

#[test]
fn connecting_with_a_server_and_user_but_no_password_is_refused() {
    let mut window = ConnectionController::new(false);
    assert_eq!(window.primary_action(), Some(PrimaryAction::Connect));
    let typed = Password::new(String::new());
    assert!(window
        .check_form("vpn.exemplo.org", "invalido", &typed)
        .is_none());
    assert_eq!(window.state(), ConnectionState::Error);
    assert!(!window.is_busy());
    assert_eq!(
        window.primary_button(),
        PrimaryButton { label: ButtonLabel::Connect, enabled: true }
    );
}

#[test]
fn connection_launch_checks_first_and_keeps_the_password_off_the_command_line() {
    let backend = OpenConnectBackend::default();
    let make = |password: &str| {
        Credentials::new(
            ServerAddress::parse("vpn.example.org").unwrap(),
            VpnProtocol::PanGp,
            Username::parse("alice").unwrap(),
            Password::new(String::from(password)),
        )
        .ok()
        .unwrap()
    };

    let refused = backend.begin_connect(make("pw"), true, false, true);
    assert_eq!(
        refused.err().unwrap(),
        VpnBackendError::localized(BackendErrorMessage::OpenConnectNotFound)
    );

    let first = backend.begin_connect(make("first secret"), true, true, true).ok().unwrap();
    let second = backend.begin_connect(make("other"), true, true, true).ok().unwrap();
    assert_eq!(first.program(), "/usr/bin/pkexec");
    assert_eq!(
        first.args(),
        &vec![
            "/usr/sbin/openconnect".to_string(),
            "--protocol=gp".to_string(),
            "vpn.example.org".to_string(),
            "--user".to_string(),
            "alice".to_string(),
            "--passwd-on-stdin".to_string(),
            "--non-inter".to_string(),
        ]
    );
    assert_eq!(first.args(), second.args());
    assert!(!first.args().iter().any(|arg| arg.contains("first secret")));
    assert_eq!(first.password().as_str(), "first secret");
}

#[test]
fn exited_session_stays_exited() {
    let mut record = SessionRecord::new(321, true);
    assert_eq!(record.poll(ProcessWait::Running, true, true), Ok(SessionStatus::Active));
    assert_eq!(record.poll(ProcessWait::Exited, true, true), Ok(SessionStatus::Exited));
    assert_eq!(record.poll(ProcessWait::Running, true, true), Ok(SessionStatus::Exited));
    assert_eq!(record.poll(ProcessWait::Failed, false, false), Ok(SessionStatus::Exited));
    assert_eq!(record.pid(), 321);
    assert!(record.verified());

    let mut unverified = SessionRecord::new(5, false);
    assert_eq!(
        unverified.poll(ProcessWait::Failed, true, true).unwrap_err().localized_message(),
        Some(BackendErrorMessage::ProcessMonitoringFailed)
    );
    assert_eq!(
        unverified.poll(ProcessWait::Running, true, false),
        Ok(SessionStatus::Exited)
    );
    assert_eq!(
        unverified.poll(ProcessWait::Running, true, true),
        Ok(SessionStatus::Active)
    );
    assert!(!unverified.verified());
}

#[test]
fn status_line_texts() {
    assert_eq!(
        detail_text(
            Language::Portuguese,
            &StatusDetail::Message(StatusMessage::EnterCredentials)
        ),
        "Informe servidor, usuário e senha para começar."
    );
    assert_eq!(
        Language::English
            .catalog()
            .backend_error(&VpnBackendError::localized_with_detail(
                BackendErrorMessage::DisconnectFailed,
                String::from("not permitted"),
            )),
        "The VPN could not be disconnected. not permitted"
    );
    assert_eq!(
        Language::Japanese
            .catalog()
            .backend_error(&VpnBackendError::new(String::from("plain"))),
        "plain"
    );
    assert_eq!(
        detail_text(
            Language::Portuguese,
            &StatusDetail::CredentialError(CredentialError::EmptyPassword)
        ),
        "Informe a senha."
    );
    assert_eq!(
        detail_text(
            Language::Mandarin,
            &StatusDetail::Message(StatusMessage::VpnDisconnected)
        ),
        "VPN 已断开。"
    );
    assert_eq!(
        detail_text(
            Language::English,
            &StatusDetail::BackendError(VpnBackendError::localized(
                BackendErrorMessage::AuthorizationCancelled
            ))
        ),
        "The authorization was cancelled."
    );
    assert_eq!(
        VpnBackendError::localized(BackendErrorMessage::PkexecNotFound).to_string(),
        "O pkexec não foi encontrado. Instale o pacote polkit."
    );
    assert_eq!(Language::ALL.len(), 4);
    assert_eq!(Language::English.native_name(), "English");
    assert_eq!(Language::Portuguese.catalog().connection_state(ConnectionState::Connecting), "Conectando…");
    assert_eq!(Language::English.catalog().credential_error(CredentialError::InvalidServer), "Enter a VPN server without spaces.");
    assert_eq!(Language::Japanese.catalog().status_message(StatusMessage::ConnectionEnded), "VPN 接続が終了しました。");
}

#[test]
fn changing_language_translates_the_current_status_message() {
    let window = ConnectionController::new(false);
    let language = Language::English;

    assert_eq!(
        detail_text(language, window.detail()),
        "Enter the server, username, and password to start."
    );
}

#[test]
fn ascii_command_error_examples() {
    assert_eq!(command_error("E", b"a", b""), "E: a");
    assert_eq!(command_output(b"", b" only  stdout "), "only stdout");
}
