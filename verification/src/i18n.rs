//! The window's texts in each supported language.
use vstd::prelude::*;
use vstd::string::StringExecFns;

use crate::application::{BackendErrorMessage, VpnBackendError};
use crate::domain::{ConnectionState, CredentialError};
use crate::ui::{StatusDetail, StatusMessage};

verus! {

/// The languages of the window.
#[derive(Clone, Copy, Debug, PartialEq, Eq, Structural)]
pub enum Language {
    English,
    Portuguese,
    Japanese,
    Mandarin,
}

impl Default for Language {
    /// A new window speaks English.
    fn default() -> (language: Self)
        ensures
            language == Language::English,
    {
        Language::English
    }
}

/// The fixed labels of the window.
#[derive(Clone, Copy, Debug, PartialEq, Eq, Structural)]
pub enum UiText {
    NativeName,
    LanguageLabel,
    Subtitle,
    Server,
    ServerHint,
    Protocol,
    Username,
    UsernameHint,
    Password,
    PasswordHint,
    Connect,
    Disconnect,
    Wait,
    SecurityNotice,
}

/// The fixed labels in each language.
pub open spec fn ui_text(language: Language, item: UiText) -> Seq<char> {
    match language {
        Language::English => match item {
            UiText::NativeName => "English"@,
            UiText::LanguageLabel => "Language"@,
            UiText::Subtitle => "OpenConnect client for corporate VPNs"@,
            UiText::Server => "VPN server"@,
            UiText::ServerHint => "vpn.example.org"@,
            UiText::Protocol => "Protocol"@,
            UiText::Username => "Username"@,
            UiText::UsernameHint => "user"@,
            UiText::Password => "Password"@,
            UiText::PasswordHint => "password"@,
            UiText::Connect => "Connect to VPN"@,
            UiText::Disconnect => "Disconnect"@,
            UiText::Wait => "Please wait…"@,
            UiText::SecurityNotice => "The password is sent to OpenConnect on standard input and is not stored."@,
        },
        Language::Portuguese => match item {
            UiText::NativeName => "Português"@,
            UiText::LanguageLabel => "Idioma"@,
            UiText::Subtitle => "Cliente OpenConnect para VPN corporativa"@,
            UiText::Server => "Servidor VPN"@,
            UiText::ServerHint => "vpn.example.org"@,
            UiText::Protocol => "Protocolo"@,
            UiText::Username => "Usuário"@,
            UiText::UsernameHint => "usuario"@,
            UiText::Password => "Senha"@,
            UiText::PasswordHint => "senha"@,
            UiText::Connect => "Conectar à VPN"@,
            UiText::Disconnect => "Desconectar"@,
            UiText::Wait => "Aguarde…"@,
            UiText::SecurityNotice => "A senha é enviada ao OpenConnect pela entrada padrão e não é armazenada."@,
        },
        Language::Japanese => match item {
            UiText::NativeName => "日本語"@,
            UiText::LanguageLabel => "言語"@,
            UiText::Subtitle => "企業 VPN 向け OpenConnect クライアント"@,
            UiText::Server => "VPN サーバー"@,
            UiText::ServerHint => "vpn.example.org"@,
            UiText::Protocol => "プロトコル"@,
            UiText::Username => "ユーザー名"@,
            UiText::UsernameHint => "ユーザー"@,
            UiText::Password => "パスワード"@,
            UiText::PasswordHint => "パスワード"@,
            UiText::Connect => "VPN に接続"@,
            UiText::Disconnect => "切断"@,
            UiText::Wait => "お待ちください…"@,
            UiText::SecurityNotice => "パスワードは標準入力で OpenConnect に渡され、保存されません。"@,
        },
        Language::Mandarin => match item {
            UiText::NativeName => "中文"@,
            UiText::LanguageLabel => "语言"@,
            UiText::Subtitle => "适用于企业 VPN 的 OpenConnect 客户端"@,
            UiText::Server => "VPN 服务器"@,
            UiText::ServerHint => "vpn.example.org"@,
            UiText::Protocol => "协议"@,
            UiText::Username => "用户名"@,
            UiText::UsernameHint => "用户"@,
            UiText::Password => "密码"@,
            UiText::PasswordHint => "密码"@,
            UiText::Connect => "连接 VPN"@,
            UiText::Disconnect => "断开连接"@,
            UiText::Wait => "请稍候…"@,
            UiText::SecurityNotice => "密码通过标准输入发送给 OpenConnect，不会被保存。"@,
        },
    }
}

pub fn ui_label(language: Language, item: UiText) -> (text: &'static str)
    ensures
        text@ == ui_text(language, item),
{
    match language {
        Language::English => match item {
            UiText::NativeName => "English",
            UiText::LanguageLabel => "Language",
            UiText::Subtitle => "OpenConnect client for corporate VPNs",
            UiText::Server => "VPN server",
            UiText::ServerHint => "vpn.example.org",
            UiText::Protocol => "Protocol",
            UiText::Username => "Username",
            UiText::UsernameHint => "user",
            UiText::Password => "Password",
            UiText::PasswordHint => "password",
            UiText::Connect => "Connect to VPN",
            UiText::Disconnect => "Disconnect",
            UiText::Wait => "Please wait…",
            UiText::SecurityNotice => "The password is sent to OpenConnect on standard input and is not stored.",
        },
        Language::Portuguese => match item {
            UiText::NativeName => "Português",
            UiText::LanguageLabel => "Idioma",
            UiText::Subtitle => "Cliente OpenConnect para VPN corporativa",
            UiText::Server => "Servidor VPN",
            UiText::ServerHint => "vpn.example.org",
            UiText::Protocol => "Protocolo",
            UiText::Username => "Usuário",
            UiText::UsernameHint => "usuario",
            UiText::Password => "Senha",
            UiText::PasswordHint => "senha",
            UiText::Connect => "Conectar à VPN",
            UiText::Disconnect => "Desconectar",
            UiText::Wait => "Aguarde…",
            UiText::SecurityNotice => "A senha é enviada ao OpenConnect pela entrada padrão e não é armazenada.",
        },
        Language::Japanese => match item {
            UiText::NativeName => "日本語",
            UiText::LanguageLabel => "言語",
            UiText::Subtitle => "企業 VPN 向け OpenConnect クライアント",
            UiText::Server => "VPN サーバー",
            UiText::ServerHint => "vpn.example.org",
            UiText::Protocol => "プロトコル",
            UiText::Username => "ユーザー名",
            UiText::UsernameHint => "ユーザー",
            UiText::Password => "パスワード",
            UiText::PasswordHint => "パスワード",
            UiText::Connect => "VPN に接続",
            UiText::Disconnect => "切断",
            UiText::Wait => "お待ちください…",
            UiText::SecurityNotice => "パスワードは標準入力で OpenConnect に渡され、保存されません。",
        },
        Language::Mandarin => match item {
            UiText::NativeName => "中文",
            UiText::LanguageLabel => "语言",
            UiText::Subtitle => "适用于企业 VPN 的 OpenConnect 客户端",
            UiText::Server => "VPN 服务器",
            UiText::ServerHint => "vpn.example.org",
            UiText::Protocol => "协议",
            UiText::Username => "用户名",
            UiText::UsernameHint => "用户",
            UiText::Password => "密码",
            UiText::PasswordHint => "密码",
            UiText::Connect => "连接 VPN",
            UiText::Disconnect => "断开连接",
            UiText::Wait => "请稍候…",
            UiText::SecurityNotice => "密码通过标准输入发送给 OpenConnect，不会被保存。",
        },
    }
}
/// The name of each connection state in each language.
pub open spec fn state_text(language: Language, item: ConnectionState) -> Seq<char> {
    match language {
        Language::English => match item {
            ConnectionState::Disconnected => "Disconnected"@,
            ConnectionState::Connecting => "Connecting…"@,
            ConnectionState::Connected => "Connected"@,
            ConnectionState::Disconnecting => "Disconnecting…"@,
            ConnectionState::Error => "Attention needed"@,
        },
        Language::Portuguese => match item {
            ConnectionState::Disconnected => "Desconectada"@,
            ConnectionState::Connecting => "Conectando…"@,
            ConnectionState::Connected => "Conectada"@,
            ConnectionState::Disconnecting => "Desconectando…"@,
            ConnectionState::Error => "Atenção necessária"@,
        },
        Language::Japanese => match item {
            ConnectionState::Disconnected => "切断済み"@,
            ConnectionState::Connecting => "接続中…"@,
            ConnectionState::Connected => "接続済み"@,
            ConnectionState::Disconnecting => "切断中…"@,
            ConnectionState::Error => "要確認"@,
        },
        Language::Mandarin => match item {
            ConnectionState::Disconnected => "未连接"@,
            ConnectionState::Connecting => "正在连接…"@,
            ConnectionState::Connected => "已连接"@,
            ConnectionState::Disconnecting => "正在断开…"@,
            ConnectionState::Error => "需要注意"@,
        },
    }
}

pub fn state_label_in(language: Language, item: ConnectionState) -> (text: &'static str)
    ensures
        text@ == state_text(language, item),
{
    match language {
        Language::English => match item {
            ConnectionState::Disconnected => "Disconnected",
            ConnectionState::Connecting => "Connecting…",
            ConnectionState::Connected => "Connected",
            ConnectionState::Disconnecting => "Disconnecting…",
            ConnectionState::Error => "Attention needed",
        },
        Language::Portuguese => match item {
            ConnectionState::Disconnected => "Desconectada",
            ConnectionState::Connecting => "Conectando…",
            ConnectionState::Connected => "Conectada",
            ConnectionState::Disconnecting => "Desconectando…",
            ConnectionState::Error => "Atenção necessária",
        },
        Language::Japanese => match item {
            ConnectionState::Disconnected => "切断済み",
            ConnectionState::Connecting => "接続中…",
            ConnectionState::Connected => "接続済み",
            ConnectionState::Disconnecting => "切断中…",
            ConnectionState::Error => "要確認",
        },
        Language::Mandarin => match item {
            ConnectionState::Disconnected => "未连接",
            ConnectionState::Connecting => "正在连接…",
            ConnectionState::Connected => "已连接",
            ConnectionState::Disconnecting => "正在断开…",
            ConnectionState::Error => "需要注意",
        },
    }
}
/// The refusal of each form field in each language.
pub open spec fn credential_text(language: Language, item: CredentialError) -> Seq<char> {
    match language {
        Language::English => match item {
            CredentialError::EmptyServer => "Enter the VPN server."@,
            CredentialError::InvalidServer => "Enter a VPN server without spaces."@,
            CredentialError::EmptyUsername => "Enter the username."@,
            CredentialError::EmptyPassword => "Enter the password."@,
        },
        Language::Portuguese => match item {
            CredentialError::EmptyServer => "Informe o servidor VPN."@,
            CredentialError::InvalidServer => "Informe um servidor VPN sem espaços."@,
            CredentialError::EmptyUsername => "Informe o usuário."@,
            CredentialError::EmptyPassword => "Informe a senha."@,
        },
        Language::Japanese => match item {
            CredentialError::EmptyServer => "VPN サーバーを入力してください。"@,
            CredentialError::InvalidServer => "空白を含まない VPN サーバーを入力してください。"@,
            CredentialError::EmptyUsername => "ユーザー名を入力してください。"@,
            CredentialError::EmptyPassword => "パスワードを入力してください。"@,
        },
        Language::Mandarin => match item {
            CredentialError::EmptyServer => "请输入 VPN 服务器。"@,
            CredentialError::InvalidServer => "请输入不含空格的 VPN 服务器。"@,
            CredentialError::EmptyUsername => "请输入用户名。"@,
            CredentialError::EmptyPassword => "请输入密码。"@,
        },
    }
}

pub fn credential_message_in(language: Language, item: CredentialError) -> (text: &'static str)
    ensures
        text@ == credential_text(language, item),
{
    match language {
        Language::English => match item {
            CredentialError::EmptyServer => "Enter the VPN server.",
            CredentialError::InvalidServer => "Enter a VPN server without spaces.",
            CredentialError::EmptyUsername => "Enter the username.",
            CredentialError::EmptyPassword => "Enter the password.",
        },
        Language::Portuguese => match item {
            CredentialError::EmptyServer => "Informe o servidor VPN.",
            CredentialError::InvalidServer => "Informe um servidor VPN sem espaços.",
            CredentialError::EmptyUsername => "Informe o usuário.",
            CredentialError::EmptyPassword => "Informe a senha.",
        },
        Language::Japanese => match item {
            CredentialError::EmptyServer => "VPN サーバーを入力してください。",
            CredentialError::InvalidServer => "空白を含まない VPN サーバーを入力してください。",
            CredentialError::EmptyUsername => "ユーザー名を入力してください。",
            CredentialError::EmptyPassword => "パスワードを入力してください。",
        },
        Language::Mandarin => match item {
            CredentialError::EmptyServer => "请输入 VPN 服务器。",
            CredentialError::InvalidServer => "请输入不含空格的 VPN 服务器。",
            CredentialError::EmptyUsername => "请输入用户名。",
            CredentialError::EmptyPassword => "请输入密码。",
        },
    }
}
/// The status messages in each language.
pub open spec fn status_text(language: Language, item: StatusMessage) -> Seq<char> {
    match language {
        Language::English => match item {
            StatusMessage::AlreadyConnected => "A VPN connection is already active."@,
            StatusMessage::EnterCredentials => "Enter the server, username, and password to start."@,
            StatusMessage::AuthorizeOperation => "Authorize the operation in the system dialog."@,
            StatusMessage::NoConnection => "No active VPN connection was found."@,
            StatusMessage::InvalidStateFile => "The state file does not point to an OpenConnect process."@,
            StatusMessage::ClosingTunnel => "Closing the VPN tunnel…"@,
            StatusMessage::ConnectionVerified => "VPN connection established."@,
            StatusMessage::ConnectionUnverified => "OpenConnect is running; the connection is not confirmed yet."@,
            StatusMessage::VpnDisconnected => "VPN disconnected."@,
            StatusMessage::OperationInterrupted => "The operation was interrupted."@,
            StatusMessage::ConnectionEnded => "The VPN connection ended."@,
        },
        Language::Portuguese => match item {
            StatusMessage::AlreadyConnected => "Já existe uma conexão VPN ativa."@,
            StatusMessage::EnterCredentials => "Informe servidor, usuário e senha para começar."@,
            StatusMessage::AuthorizeOperation => "Autorize a operação no diálogo do sistema."@,
            StatusMessage::NoConnection => "Nenhuma conexão VPN ativa foi encontrada."@,
            StatusMessage::InvalidStateFile => "O arquivo de estado não aponta para um processo OpenConnect."@,
            StatusMessage::ClosingTunnel => "Encerrando o túnel VPN…"@,
            StatusMessage::ConnectionVerified => "Conexão VPN estabelecida."@,
            StatusMessage::ConnectionUnverified => "OpenConnect em execução; a conexão ainda não foi confirmada."@,
            StatusMessage::VpnDisconnected => "VPN desconectada."@,
            StatusMessage::OperationInterrupted => "A operação foi interrompida."@,
            StatusMessage::ConnectionEnded => "A conexão VPN foi encerrada."@,
        },
        Language::Japanese => match item {
            StatusMessage::AlreadyConnected => "VPN 接続はすでに有効です。"@,
            StatusMessage::EnterCredentials => "サーバー、ユーザー名、パスワードを入力して開始してください。"@,
            StatusMessage::AuthorizeOperation => "システムのダイアログで操作を承認してください。"@,
            StatusMessage::NoConnection => "有効な VPN 接続が見つかりません。"@,
            StatusMessage::InvalidStateFile => "状態ファイルが OpenConnect のプロセスを指していません。"@,
            StatusMessage::ClosingTunnel => "VPN トンネルを閉じています…"@,
            StatusMessage::ConnectionVerified => "VPN 接続が確立されました。"@,
            StatusMessage::ConnectionUnverified => "OpenConnect は実行中ですが、接続はまだ確認されていません。"@,
            StatusMessage::VpnDisconnected => "VPN を切断しました。"@,
            StatusMessage::OperationInterrupted => "操作が中断されました。"@,
            StatusMessage::ConnectionEnded => "VPN 接続が終了しました。"@,
        },
        Language::Mandarin => match item {
            StatusMessage::AlreadyConnected => "VPN 连接已处于活动状态。"@,
            StatusMessage::EnterCredentials => "请输入服务器、用户名和密码以开始。"@,
            StatusMessage::AuthorizeOperation => "请在系统对话框中授权此操作。"@,
            StatusMessage::NoConnection => "未找到活动的 VPN 连接。"@,
            StatusMessage::InvalidStateFile => "状态文件未指向 OpenConnect 进程。"@,
            StatusMessage::ClosingTunnel => "正在关闭 VPN 隧道…"@,
            StatusMessage::ConnectionVerified => "VPN 连接已建立。"@,
            StatusMessage::ConnectionUnverified => "OpenConnect 正在运行；连接尚未确认。"@,
            StatusMessage::VpnDisconnected => "VPN 已断开。"@,
            StatusMessage::OperationInterrupted => "操作已中断。"@,
            StatusMessage::ConnectionEnded => "VPN 连接已结束。"@,
        },
    }
}

pub fn status_message_in(language: Language, item: StatusMessage) -> (text: &'static str)
    ensures
        text@ == status_text(language, item),
{
    match language {
        Language::English => match item {
            StatusMessage::AlreadyConnected => "A VPN connection is already active.",
            StatusMessage::EnterCredentials => "Enter the server, username, and password to start.",
            StatusMessage::AuthorizeOperation => "Authorize the operation in the system dialog.",
            StatusMessage::NoConnection => "No active VPN connection was found.",
            StatusMessage::InvalidStateFile => "The state file does not point to an OpenConnect process.",
            StatusMessage::ClosingTunnel => "Closing the VPN tunnel…",
            StatusMessage::ConnectionVerified => "VPN connection established.",
            StatusMessage::ConnectionUnverified => "OpenConnect is running; the connection is not confirmed yet.",
            StatusMessage::VpnDisconnected => "VPN disconnected.",
            StatusMessage::OperationInterrupted => "The operation was interrupted.",
            StatusMessage::ConnectionEnded => "The VPN connection ended.",
        },
        Language::Portuguese => match item {
            StatusMessage::AlreadyConnected => "Já existe uma conexão VPN ativa.",
            StatusMessage::EnterCredentials => "Informe servidor, usuário e senha para começar.",
            StatusMessage::AuthorizeOperation => "Autorize a operação no diálogo do sistema.",
            StatusMessage::NoConnection => "Nenhuma conexão VPN ativa foi encontrada.",
            StatusMessage::InvalidStateFile => "O arquivo de estado não aponta para um processo OpenConnect.",
            StatusMessage::ClosingTunnel => "Encerrando o túnel VPN…",
            StatusMessage::ConnectionVerified => "Conexão VPN estabelecida.",
            StatusMessage::ConnectionUnverified => "OpenConnect em execução; a conexão ainda não foi confirmada.",
            StatusMessage::VpnDisconnected => "VPN desconectada.",
            StatusMessage::OperationInterrupted => "A operação foi interrompida.",
            StatusMessage::ConnectionEnded => "A conexão VPN foi encerrada.",
        },
        Language::Japanese => match item {
            StatusMessage::AlreadyConnected => "VPN 接続はすでに有効です。",
            StatusMessage::EnterCredentials => "サーバー、ユーザー名、パスワードを入力して開始してください。",
            StatusMessage::AuthorizeOperation => "システムのダイアログで操作を承認してください。",
            StatusMessage::NoConnection => "有効な VPN 接続が見つかりません。",
            StatusMessage::InvalidStateFile => "状態ファイルが OpenConnect のプロセスを指していません。",
            StatusMessage::ClosingTunnel => "VPN トンネルを閉じています…",
            StatusMessage::ConnectionVerified => "VPN 接続が確立されました。",
            StatusMessage::ConnectionUnverified => "OpenConnect は実行中ですが、接続はまだ確認されていません。",
            StatusMessage::VpnDisconnected => "VPN を切断しました。",
            StatusMessage::OperationInterrupted => "操作が中断されました。",
            StatusMessage::ConnectionEnded => "VPN 接続が終了しました。",
        },
        Language::Mandarin => match item {
            StatusMessage::AlreadyConnected => "VPN 连接已处于活动状态。",
            StatusMessage::EnterCredentials => "请输入服务器、用户名和密码以开始。",
            StatusMessage::AuthorizeOperation => "请在系统对话框中授权此操作。",
            StatusMessage::NoConnection => "未找到活动的 VPN 连接。",
            StatusMessage::InvalidStateFile => "状态文件未指向 OpenConnect 进程。",
            StatusMessage::ClosingTunnel => "正在关闭 VPN 隧道…",
            StatusMessage::ConnectionVerified => "VPN 连接已建立。",
            StatusMessage::ConnectionUnverified => "OpenConnect 正在运行；连接尚未确认。",
            StatusMessage::VpnDisconnected => "VPN 已断开。",
            StatusMessage::OperationInterrupted => "操作已中断。",
            StatusMessage::ConnectionEnded => "VPN 连接已结束。",
        },
    }
}
/// The backend failures in each language.
pub open spec fn backend_message_text(language: Language, item: BackendErrorMessage) -> Seq<char> {
    match language {
        Language::English => match item {
            BackendErrorMessage::UnsupportedPlatform => "This system is not supported yet; use Linux with Polkit."@,
            BackendErrorMessage::SystemAuthorizationUnavailable => "The system authorization could not be requested."@,
            BackendErrorMessage::OpenConnectNotFound => "OpenConnect was not found. Install the openconnect package."@,
            BackendErrorMessage::PkexecNotFound => "pkexec was not found. Install the polkit package."@,
            BackendErrorMessage::AuthorizationCancelled => "The authorization was cancelled."@,
            BackendErrorMessage::ConnectionUnavailable => "The VPN connection could not be started."@,
            BackendErrorMessage::PolkitStartFailed => "Polkit could not be started."@,
            BackendErrorMessage::DisconnectFailed => "The VPN could not be disconnected."@,
            BackendErrorMessage::DisconnectStillActive => "The VPN is still active."@,
            BackendErrorMessage::ProcessMonitoringFailed => "The VPN process could not be monitored."@,
            BackendErrorMessage::StateStoreFailed => "The VPN state could not be saved."@,
            BackendErrorMessage::ConnectionStartFailed => "OpenConnect ended with an error."@,
        },
        Language::Portuguese => match item {
            BackendErrorMessage::UnsupportedPlatform => "Este sistema ainda não é suportado; use Linux com Polkit."@,
            BackendErrorMessage::SystemAuthorizationUnavailable => "Não foi possível pedir autorização ao sistema."@,
            BackendErrorMessage::OpenConnectNotFound => "O OpenConnect não foi encontrado. Instale o pacote openconnect."@,
            BackendErrorMessage::PkexecNotFound => "O pkexec não foi encontrado. Instale o pacote polkit."@,
            BackendErrorMessage::AuthorizationCancelled => "A autorização foi cancelada."@,
            BackendErrorMessage::ConnectionUnavailable => "Não foi possível iniciar a conexão VPN."@,
            BackendErrorMessage::PolkitStartFailed => "Não foi possível iniciar o Polkit."@,
            BackendErrorMessage::DisconnectFailed => "Não foi possível encerrar a VPN."@,
            BackendErrorMessage::DisconnectStillActive => "A VPN continua ativa."@,
            BackendErrorMessage::ProcessMonitoringFailed => "Não foi possível acompanhar o processo da VPN."@,
            BackendErrorMessage::StateStoreFailed => "Não foi possível gravar o estado da VPN."@,
            BackendErrorMessage::ConnectionStartFailed => "O OpenConnect encerrou com erro."@,
        },
        Language::Japanese => match item {
            BackendErrorMessage::UnsupportedPlatform => "このシステムはまだサポートされていません。Polkit のある Linux を使用してください。"@,
            BackendErrorMessage::SystemAuthorizationUnavailable => "システムの承認を要求できませんでした。"@,
            BackendErrorMessage::OpenConnectNotFound => "OpenConnect が見つかりません。openconnect パッケージをインストールしてください。"@,
            BackendErrorMessage::PkexecNotFound => "pkexec が見つかりません。polkit パッケージをインストールしてください。"@,
            BackendErrorMessage::AuthorizationCancelled => "承認がキャンセルされました。"@,
            BackendErrorMessage::ConnectionUnavailable => "VPN 接続を開始できませんでした。"@,
            BackendErrorMessage::PolkitStartFailed => "Polkit を起動できませんでした。"@,
            BackendErrorMessage::DisconnectFailed => "VPN を切断できませんでした。"@,
            BackendErrorMessage::DisconnectStillActive => "VPN はまだ有効です。"@,
            BackendErrorMessage::ProcessMonitoringFailed => "VPN のプロセスを監視できませんでした。"@,
            BackendErrorMessage::StateStoreFailed => "VPN の状態を保存できませんでした。"@,
            BackendErrorMessage::ConnectionStartFailed => "OpenConnect がエラーで終了しました。"@,
        },
        Language::Mandarin => match item {
            BackendErrorMessage::UnsupportedPlatform => "暂不支持此系统；请使用带有 Polkit 的 Linux。"@,
            BackendErrorMessage::SystemAuthorizationUnavailable => "无法请求系统授权。"@,
            BackendErrorMessage::OpenConnectNotFound => "未找到 OpenConnect。请安装 openconnect 软件包。"@,
            BackendErrorMessage::PkexecNotFound => "未找到 pkexec。请安装 polkit 软件包。"@,
            BackendErrorMessage::AuthorizationCancelled => "授权已取消。"@,
            BackendErrorMessage::ConnectionUnavailable => "无法启动 VPN 连接。"@,
            BackendErrorMessage::PolkitStartFailed => "无法启动 Polkit。"@,
            BackendErrorMessage::DisconnectFailed => "无法断开 VPN。"@,
            BackendErrorMessage::DisconnectStillActive => "VPN 仍处于活动状态。"@,
            BackendErrorMessage::ProcessMonitoringFailed => "无法监控 VPN 进程。"@,
            BackendErrorMessage::StateStoreFailed => "无法保存 VPN 状态。"@,
            BackendErrorMessage::ConnectionStartFailed => "OpenConnect 异常退出。"@,
        },
    }
}

pub fn backend_message_in(language: Language, item: BackendErrorMessage) -> (text: &'static str)
    ensures
        text@ == backend_message_text(language, item),
{
    match language {
        Language::English => match item {
            BackendErrorMessage::UnsupportedPlatform => "This system is not supported yet; use Linux with Polkit.",
            BackendErrorMessage::SystemAuthorizationUnavailable => "The system authorization could not be requested.",
            BackendErrorMessage::OpenConnectNotFound => "OpenConnect was not found. Install the openconnect package.",
            BackendErrorMessage::PkexecNotFound => "pkexec was not found. Install the polkit package.",
            BackendErrorMessage::AuthorizationCancelled => "The authorization was cancelled.",
            BackendErrorMessage::ConnectionUnavailable => "The VPN connection could not be started.",
            BackendErrorMessage::PolkitStartFailed => "Polkit could not be started.",
            BackendErrorMessage::DisconnectFailed => "The VPN could not be disconnected.",
            BackendErrorMessage::DisconnectStillActive => "The VPN is still active.",
            BackendErrorMessage::ProcessMonitoringFailed => "The VPN process could not be monitored.",
            BackendErrorMessage::StateStoreFailed => "The VPN state could not be saved.",
            BackendErrorMessage::ConnectionStartFailed => "OpenConnect ended with an error.",
        },
        Language::Portuguese => match item {
            BackendErrorMessage::UnsupportedPlatform => "Este sistema ainda não é suportado; use Linux com Polkit.",
            BackendErrorMessage::SystemAuthorizationUnavailable => "Não foi possível pedir autorização ao sistema.",
            BackendErrorMessage::OpenConnectNotFound => "O OpenConnect não foi encontrado. Instale o pacote openconnect.",
            BackendErrorMessage::PkexecNotFound => "O pkexec não foi encontrado. Instale o pacote polkit.",
            BackendErrorMessage::AuthorizationCancelled => "A autorização foi cancelada.",
            BackendErrorMessage::ConnectionUnavailable => "Não foi possível iniciar a conexão VPN.",
            BackendErrorMessage::PolkitStartFailed => "Não foi possível iniciar o Polkit.",
            BackendErrorMessage::DisconnectFailed => "Não foi possível encerrar a VPN.",
            BackendErrorMessage::DisconnectStillActive => "A VPN continua ativa.",
            BackendErrorMessage::ProcessMonitoringFailed => "Não foi possível acompanhar o processo da VPN.",
            BackendErrorMessage::StateStoreFailed => "Não foi possível gravar o estado da VPN.",
            BackendErrorMessage::ConnectionStartFailed => "O OpenConnect encerrou com erro.",
        },
        Language::Japanese => match item {
            BackendErrorMessage::UnsupportedPlatform => "このシステムはまだサポートされていません。Polkit のある Linux を使用してください。",
            BackendErrorMessage::SystemAuthorizationUnavailable => "システムの承認を要求できませんでした。",
            BackendErrorMessage::OpenConnectNotFound => "OpenConnect が見つかりません。openconnect パッケージをインストールしてください。",
            BackendErrorMessage::PkexecNotFound => "pkexec が見つかりません。polkit パッケージをインストールしてください。",
            BackendErrorMessage::AuthorizationCancelled => "承認がキャンセルされました。",
            BackendErrorMessage::ConnectionUnavailable => "VPN 接続を開始できませんでした。",
            BackendErrorMessage::PolkitStartFailed => "Polkit を起動できませんでした。",
            BackendErrorMessage::DisconnectFailed => "VPN を切断できませんでした。",
            BackendErrorMessage::DisconnectStillActive => "VPN はまだ有効です。",
            BackendErrorMessage::ProcessMonitoringFailed => "VPN のプロセスを監視できませんでした。",
            BackendErrorMessage::StateStoreFailed => "VPN の状態を保存できませんでした。",
            BackendErrorMessage::ConnectionStartFailed => "OpenConnect がエラーで終了しました。",
        },
        Language::Mandarin => match item {
            BackendErrorMessage::UnsupportedPlatform => "暂不支持此系统；请使用带有 Polkit 的 Linux。",
            BackendErrorMessage::SystemAuthorizationUnavailable => "无法请求系统授权。",
            BackendErrorMessage::OpenConnectNotFound => "未找到 OpenConnect。请安装 openconnect 软件包。",
            BackendErrorMessage::PkexecNotFound => "未找到 pkexec。请安装 polkit 软件包。",
            BackendErrorMessage::AuthorizationCancelled => "授权已取消。",
            BackendErrorMessage::ConnectionUnavailable => "无法启动 VPN 连接。",
            BackendErrorMessage::PolkitStartFailed => "无法启动 Polkit。",
            BackendErrorMessage::DisconnectFailed => "无法断开 VPN。",
            BackendErrorMessage::DisconnectStillActive => "VPN 仍处于活动状态。",
            BackendErrorMessage::ProcessMonitoringFailed => "无法监控 VPN 进程。",
            BackendErrorMessage::StateStoreFailed => "无法保存 VPN 状态。",
            BackendErrorMessage::ConnectionStartFailed => "OpenConnect 异常退出。",
        },
    }
}
/// The text of a backend error: its plain message; or the failure's text,
/// followed by a space and the detail where there is one.
pub open spec fn error_display(language: Language, error: (Option<BackendErrorMessage>, Seq<char>)) -> Seq<
    char,
> {
    match error.0 {
        None => error.1,
        Some(message) => if error.1.len() == 0 {
            backend_message_text(language, message)
        } else {
            backend_message_text(language, message) + " "@ + error.1
        },
    }
}

/// The text of the status line.
pub open spec fn detail_display(language: Language, detail: StatusDetail) -> Seq<char> {
    match detail {
        StatusDetail::Message(message) => status_text(language, message),
        StatusDetail::CredentialError(error) => credential_text(language, error),
        StatusDetail::BackendError(error) => error_display(language, error@),
    }
}

/// The text that shows a backend error in a language.
pub fn backend_error_in(language: Language, error: &VpnBackendError) -> (text: String)
    ensures
        text@ == error_display(language, error@),
{
    let detail = error.message();
    match error.localized_message() {
        None => detail.to_owned(),
        Some(message) => {
            let mut text = backend_message_in(language, message).to_owned();
            if !detail.is_empty() {
                text.append(" ");
                text.append(detail);
            }
            text
        },
    }
}

/// The text of the status line in a language.
pub fn detail_text(language: Language, detail: &StatusDetail) -> (text: String)
    ensures
        text@ == detail_display(language, *detail),
{
    match detail {
        StatusDetail::Message(message) => status_message_in(language, *message).to_owned(),
        StatusDetail::CredentialError(error) => credential_message_in(language, *error).to_owned(),
        StatusDetail::BackendError(error) => backend_error_in(language, error),
    }
}

impl VpnBackendError {
    /// The error's display text, in Portuguese.
    pub fn to_string(&self) -> (text: String)
        ensures
            text@ == error_display(Language::Portuguese, self@),
    {
        backend_error_in(Language::Portuguese, self)
    }
}

/// The texts of one language.
pub struct Catalog {
    /// The language whose texts these are.
    pub language_of: Language,
    pub native_name: &'static str,
    pub language: &'static str,
    pub subtitle: &'static str,
    pub server: &'static str,
    pub server_hint: &'static str,
    pub protocol: &'static str,
    pub username: &'static str,
    pub username_hint: &'static str,
    pub password: &'static str,
    pub password_hint: &'static str,
    pub connect: &'static str,
    pub disconnect: &'static str,
    pub wait: &'static str,
    pub security_notice: &'static str,
}

impl Catalog {
    /// The language whose texts these are.
    pub open spec fn spec_language(self) -> Language {
        self.language_of
    }

    pub fn connection_state(&self, state: ConnectionState) -> (text: &'static str)
        ensures
            text@ == state_text(self.spec_language(), state),
    {
        state_label_in(self.language_of, state)
    }

    pub fn credential_error(&self, error: CredentialError) -> (text: &'static str)
        ensures
            text@ == credential_text(self.spec_language(), error),
    {
        credential_message_in(self.language_of, error)
    }

    pub fn status_message(&self, message: StatusMessage) -> (text: &'static str)
        ensures
            text@ == status_text(self.spec_language(), message),
    {
        status_message_in(self.language_of, message)
    }

    pub fn backend_error(&self, error: &VpnBackendError) -> (text: String)
        ensures
            text@ == error_display(self.spec_language(), error@),
    {
        backend_error_in(self.language_of, error)
    }
}

impl Language {
    pub const ALL: [Language; 4] = [
        Language::English,
        Language::Portuguese,
        Language::Japanese,
        Language::Mandarin,
    ];

    /// The language's name in itself.
    pub fn native_name(self) -> (name: &'static str)
        ensures
            name@ == ui_text(self, UiText::NativeName),
    {
        ui_label(self, UiText::NativeName)
    }

    pub fn catalog(self) -> (catalog: Catalog)
        ensures
            catalog.spec_language() == self,
            catalog.native_name@ == ui_text(self, UiText::NativeName),
            catalog.language@ == ui_text(self, UiText::LanguageLabel),
            catalog.subtitle@ == ui_text(self, UiText::Subtitle),
            catalog.server@ == ui_text(self, UiText::Server),
            catalog.server_hint@ == ui_text(self, UiText::ServerHint),
            catalog.protocol@ == ui_text(self, UiText::Protocol),
            catalog.username@ == ui_text(self, UiText::Username),
            catalog.username_hint@ == ui_text(self, UiText::UsernameHint),
            catalog.password@ == ui_text(self, UiText::Password),
            catalog.password_hint@ == ui_text(self, UiText::PasswordHint),
            catalog.connect@ == ui_text(self, UiText::Connect),
            catalog.disconnect@ == ui_text(self, UiText::Disconnect),
            catalog.wait@ == ui_text(self, UiText::Wait),
            catalog.security_notice@ == ui_text(self, UiText::SecurityNotice),
    {
        Catalog {
            language_of: self,
            native_name: ui_label(self, UiText::NativeName),
            language: ui_label(self, UiText::LanguageLabel),
            subtitle: ui_label(self, UiText::Subtitle),
            server: ui_label(self, UiText::Server),
            server_hint: ui_label(self, UiText::ServerHint),
            protocol: ui_label(self, UiText::Protocol),
            username: ui_label(self, UiText::Username),
            username_hint: ui_label(self, UiText::UsernameHint),
            password: ui_label(self, UiText::Password),
            password_hint: ui_label(self, UiText::PasswordHint),
            connect: ui_label(self, UiText::Connect),
            disconnect: ui_label(self, UiText::Disconnect),
            wait: ui_label(self, UiText::Wait),
            security_notice: ui_label(self, UiText::SecurityNotice),
        }
    }
}

} // verus!
