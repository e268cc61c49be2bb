//! The OpenConnect adapter's decisions: the command line, the reading of
//! what the processes print and of the files under `/proc`, and the outcome
//! of each step of connecting and disconnecting.
use vstd::prelude::*;
use vstd::string::StringExecFns;
use vstd::utf8::{decode_utf8, valid_utf8};

use crate::application::{BackendErrorMessage, SessionStatus, VpnBackendError};
use crate::domain::{protocol_openconnect_name, Credentials, Password, VpnProtocol};
use crate::text::{
    all_white_space, ascii_lower, ascii_lowercase, chars_of, collapse_chars, collapse_white_space,
    contains_text, find_text, law_collapse_idempotent, law_collapse_keeps_words, lower_ascii,
    only_white_space, parse_decimal_u32, parse_u32,
    pieces_view, same_chars, split_words, string_from_chars, trim, trim_chars, words,
};

verus! {

/// How many bytes of the processes' output are kept.
pub const COMMAND_LOG_LIMIT: usize = 8192;

/// How many characters of a command's output an error message quotes.
pub const COMMAND_ERROR_LIMIT: usize = 300;

/// How many times a disconnection checks that the tunnel is gone.
pub const DISCONNECT_CHECKS: usize = 10;

/// The exit code with which `pkexec` reports that authorization was refused.
pub const AUTHORIZATION_REFUSED_CODE: i32 = 126;

/// The programs that the adapter runs.
#[derive(Clone, Debug)]
pub struct OpenConnectConfig {
    openconnect: &'static str,
    pkexec: &'static str,
    kill: &'static str,
}

/// The paths of the three programs.
pub struct ConfigView {
    pub openconnect: Seq<char>,
    pub pkexec: Seq<char>,
    pub kill: Seq<char>,
}

impl View for OpenConnectConfig {
    type V = ConfigView;

    closed spec fn view(&self) -> ConfigView {
        ConfigView { openconnect: self.openconnect@, pkexec: self.pkexec@, kill: self.kill@ }
    }
}

impl Default for OpenConnectConfig {
    fn default() -> (config: Self)
        ensures
            config@.openconnect == "/usr/sbin/openconnect"@,
            config@.pkexec == "/usr/bin/pkexec"@,
            config@.kill == "/bin/kill"@,
    {
        OpenConnectConfig {
            openconnect: "/usr/sbin/openconnect",
            pkexec: "/usr/bin/pkexec",
            kill: "/bin/kill",
        }
    }
}

impl OpenConnectConfig {
    pub fn openconnect(&self) -> (path: &'static str)
        ensures
            path@ == self@.openconnect,
    {
        self.openconnect
    }

    pub fn pkexec(&self) -> (path: &'static str)
        ensures
            path@ == self@.pkexec,
    {
        self.pkexec
    }

    pub fn kill(&self) -> (path: &'static str)
        ensures
            path@ == self@.kill,
    {
        self.kill
    }
}

/// The OpenConnect adapter: runs `pkexec openconnect` and `pkexec kill`.
#[derive(Clone, Debug)]
pub struct OpenConnectBackend {
    config: OpenConnectConfig,
}

impl View for OpenConnectBackend {
    type V = ConfigView;

    closed spec fn view(&self) -> ConfigView {
        self.config@
    }
}

impl Default for OpenConnectBackend {
    fn default() -> (backend: Self)
        ensures
            backend@.openconnect == "/usr/sbin/openconnect"@,
            backend@.pkexec == "/usr/bin/pkexec"@,
            backend@.kill == "/bin/kill"@,
    {
        OpenConnectBackend { config: OpenConnectConfig::default() }
    }
}

/// The error of a check that failed, if any, in the order in which the
/// checks are made.
pub open spec fn spec_preflight(is_linux: bool, openconnect_found: bool, pkexec_found: bool) -> Option<
    BackendErrorMessage,
> {
    if !is_linux {
        Some(BackendErrorMessage::UnsupportedPlatform)
    } else if !openconnect_found {
        Some(BackendErrorMessage::OpenConnectNotFound)
    } else if !pkexec_found {
        Some(BackendErrorMessage::PkexecNotFound)
    } else {
        None
    }
}

/// The checks pass exactly when the system is Linux and both programs
/// exist; a failure names the first check that failed.
pub proof fn law_preflight(is_linux: bool, openconnect_found: bool, pkexec_found: bool)
    ensures
        spec_preflight(is_linux, openconnect_found, pkexec_found) is None <==> (is_linux
            && openconnect_found && pkexec_found),
        !is_linux ==> spec_preflight(is_linux, openconnect_found, pkexec_found) == Some(
            BackendErrorMessage::UnsupportedPlatform,
        ),
        is_linux && !openconnect_found ==> spec_preflight(is_linux, openconnect_found, pkexec_found)
            == Some(BackendErrorMessage::OpenConnectNotFound),
        is_linux && openconnect_found && !pkexec_found ==> spec_preflight(
            is_linux,
            openconnect_found,
            pkexec_found,
        ) == Some(BackendErrorMessage::PkexecNotFound),
{
}

impl OpenConnectBackend {
    pub fn new(config: OpenConnectConfig) -> (backend: Self)
        ensures
            backend@ == config@,
    {
        OpenConnectBackend { config }
    }

    pub fn config(&self) -> (config: &OpenConnectConfig)
        ensures
            config@ == self@,
    {
        &self.config
    }

    /// Only Linux has the Polkit and `/proc` that the adapter relies on.
    pub fn ensure_supported_platform(&self, is_linux: bool) -> (checked: Result<(), VpnBackendError>)
        ensures
            checked is Ok <==> is_linux,
            checked matches Err(error) ==> error@ == (
                Some(BackendErrorMessage::UnsupportedPlatform),
                Seq::<char>::empty(),
            ),
    {
        if is_linux {
            Ok(())
        } else {
            Err(VpnBackendError::localized(BackendErrorMessage::UnsupportedPlatform))
        }
    }

    /// The checks made before a connection: the platform, then whether the
    /// OpenConnect and `pkexec` programs exist.
    pub fn preflight(&self, is_linux: bool, openconnect_found: bool, pkexec_found: bool) -> (checked:
        Result<(), VpnBackendError>)
        ensures
            checked is Ok <==> spec_preflight(is_linux, openconnect_found, pkexec_found) is None,
            checked matches Err(error) ==> error@ == (
                spec_preflight(is_linux, openconnect_found, pkexec_found),
                Seq::<char>::empty(),
            ),
    {
        self.ensure_supported_platform(is_linux)?;
        if !openconnect_found {
            return Err(VpnBackendError::localized(BackendErrorMessage::OpenConnectNotFound));
        }
        if !pkexec_found {
            return Err(VpnBackendError::localized(BackendErrorMessage::PkexecNotFound));
        }
        Ok(())
    }
}

/// The arguments given to OpenConnect: the password is not among them, it
/// goes to the standard input.
pub open spec fn spec_openconnect_args(
    server: Seq<char>,
    protocol: VpnProtocol,
    username: Seq<char>,
) -> Seq<Seq<char>> {
    seq![
        "--protocol="@ + protocol_openconnect_name(protocol),
        server,
        "--user"@,
        username,
        "--passwd-on-stdin"@,
        "--non-inter"@,
    ]
}

pub open spec fn strings_view(strings: Seq<String>) -> Seq<Seq<char>> {
    strings.map_values(|s: String| s@)
}

/// For every protocol the command line has six arguments: the protocol
/// option, the server, `--user` and the user name, then
/// `--passwd-on-stdin` and `--non-inter`; protocols change only the first.
pub proof fn law_openconnect_args_shape(
    server: Seq<char>,
    protocol: VpnProtocol,
    other: VpnProtocol,
    username: Seq<char>,
)
    ensures
        spec_openconnect_args(server, protocol, username).len() == 6,
        spec_openconnect_args(server, protocol, username)[0] == "--protocol="@
            + protocol_openconnect_name(protocol),
        spec_openconnect_args(server, protocol, username)[1] == server,
        spec_openconnect_args(server, protocol, username)[2] == "--user"@,
        spec_openconnect_args(server, protocol, username)[3] == username,
        spec_openconnect_args(server, protocol, username)[4] == "--passwd-on-stdin"@,
        spec_openconnect_args(server, protocol, username)[5] == "--non-inter"@,
        spec_openconnect_args(server, protocol, username).len() == spec_openconnect_args(
            server,
            other,
            username,
        ).len(),
        forall|i: int|
            1 <= i < 6 ==> #[trigger] spec_openconnect_args(server, protocol, username)[i]
                == spec_openconnect_args(server, other, username)[i],
{
}

pub fn openconnect_args(server: &str, protocol: VpnProtocol, username: &str) -> (args: Vec<String>)
    ensures
        strings_view(args@) == spec_openconnect_args(server@, protocol, username@),
{
    let mut protocol_arg = "--protocol=".to_owned();
    protocol_arg.append(protocol.openconnect_name());
    let mut args: Vec<String> = Vec::new();
    args.push(protocol_arg);
    args.push(server.to_owned());
    args.push("--user".to_owned());
    args.push(username.to_owned());
    args.push("--passwd-on-stdin".to_owned());
    args.push("--non-inter".to_owned());
    assert(strings_view(args@) =~= spec_openconnect_args(server@, protocol, username@));
    args
}

/// The command line of a connection: `pkexec` runs OpenConnect with the
/// arguments built from the server, protocol and user name.
pub open spec fn spec_launch_args(
    config: ConfigView,
    server: Seq<char>,
    protocol: VpnProtocol,
    username: Seq<char>,
) -> Seq<Seq<char>> {
    seq![config.openconnect] + spec_openconnect_args(server, protocol, username)
}

/// A connection ready to start: the program to run, its arguments, and the
/// password that goes to its standard input.
pub struct ConnectionLaunch {
    program: &'static str,
    args: Vec<String>,
    password: Password,
}

pub struct LaunchView {
    pub program: Seq<char>,
    pub args: Seq<Seq<char>>,
    pub password: Seq<char>,
}

impl View for ConnectionLaunch {
    type V = LaunchView;

    closed spec fn view(&self) -> LaunchView {
        LaunchView { program: self.program@, args: strings_view(self.args@), password: self.password@ }
    }
}

impl ConnectionLaunch {
    pub fn program(&self) -> (program: &'static str)
        ensures
            program@ == self@.program,
    {
        self.program
    }

    pub fn args(&self) -> (args: &Vec<String>)
        ensures
            strings_view(args@) == self@.args,
    {
        &self.args
    }

    pub fn password(&self) -> (password: &Password)
        ensures
            password@ == self@.password,
    {
        &self.password
    }
}

impl OpenConnectBackend {
    /// The first part of a connection: the checks of `preflight`, then the
    /// command line. An error depends on the checks alone; the password only
    /// goes to the standard input, never to the command line.
    pub fn begin_connect(
        &self,
        credentials: Credentials,
        is_linux: bool,
        openconnect_found: bool,
        pkexec_found: bool,
    ) -> (launch: Result<ConnectionLaunch, VpnBackendError>)
        ensures
            launch is Ok <==> spec_preflight(is_linux, openconnect_found, pkexec_found) is None,
            launch matches Err(error) ==> error@ == (
                spec_preflight(is_linux, openconnect_found, pkexec_found),
                Seq::<char>::empty(),
            ),
            launch matches Ok(plan) ==> {
                &&& plan@.program == self@.pkexec
                &&& plan@.args == spec_launch_args(
                    self@,
                    credentials.server()@,
                    credentials.protocol(),
                    credentials.username()@,
                )
                &&& plan@.password == credentials.password()@
            },
    {
        self.preflight(is_linux, openconnect_found, pkexec_found)?;
        let (server, protocol, username, password) = credentials.into_parts();
        let mut args: Vec<String> = Vec::new();
        args.push(self.config.openconnect.to_owned());
        let mut rest = openconnect_args(server.as_str(), protocol, username.as_str());
        let ghost first = args@;
        let ghost tail = rest@;
        args.append(&mut rest);
        assert(strings_view(args@) =~= spec_launch_args(
            self@,
            server@,
            protocol,
            username@,
        )) by {
            assert(args@ == first + tail);
        }
        Ok(ConnectionLaunch { program: self.config.pkexec, args, password })
    }
}

/// Credentials that differ only in their password give the same command
/// line: the password never reaches the arguments.
pub proof fn law_launch_ignores_password(config: ConfigView, first: Credentials, second: Credentials)
    requires
        first.server()@ == second.server()@,
        first.protocol() == second.protocol(),
        first.username()@ == second.username()@,
    ensures
        spec_launch_args(config, first.server()@, first.protocol(), first.username()@)
            == spec_launch_args(config, second.server()@, second.protocol(), second.username()@),
{
}

/// What `String::from_utf8_lossy` makes of some bytes.
pub uninterp spec fn utf8_lossy(bytes: Seq<u8>) -> Seq<char>;

pub open spec fn is_ascii_bytes(bytes: Seq<u8>) -> bool {
    forall|i: int| 0 <= i < bytes.len() ==> #[trigger] bytes[i] < 128
}

pub open spec fn ascii_chars(bytes: Seq<u8>) -> Seq<char> {
    Seq::new(bytes.len(), |i: int| bytes[i] as char)
}

/// `String::from_utf8_lossy`, as characters. Its documentation gives that
/// valid UTF-8 is decoded unchanged, so ASCII bytes become the characters
/// with the same codes; what it makes of invalid sequences is only named.
#[verifier::external_body]
fn lossy_chars(bytes: &[u8]) -> (chars: Vec<char>)
    ensures
        chars@ == utf8_lossy(bytes@),
        is_ascii_bytes(bytes@) ==> chars@ == ascii_chars(bytes@),
        valid_utf8(bytes@) ==> chars@ == decode_utf8(bytes@),
{
    String::from_utf8_lossy(bytes).chars().collect()
}

/// The text of a command's output, given its two streams as characters:
/// the standard error, or the standard output where the error holds nothing
/// but whitespace, with every run of whitespace made a single space and none
/// at either end.
pub open spec fn output_text(err: Seq<char>, out: Seq<char>) -> Seq<char> {
    collapse_white_space(if all_white_space(err) {
        out
    } else {
        err
    })
}

/// The output quotes the standard error when it holds more than whitespace
/// and the standard output otherwise, word for word; it is already in the
/// form it gives, single spaces between the words and none at the ends.
pub proof fn law_output_text(err: Seq<char>, out: Seq<char>)
    ensures
        !all_white_space(err) ==> words(output_text(err, out)) == words(err),
        all_white_space(err) ==> words(output_text(err, out)) == words(out),
        collapse_white_space(output_text(err, out)) == output_text(err, out),
{
    let chosen = if all_white_space(err) {
        out
    } else {
        err
    };
    law_collapse_keeps_words(chosen);
    law_collapse_idempotent(chosen);
}

/// The text of a command's output, its streams decoded as
/// `String::from_utf8_lossy` does.
pub open spec fn spec_command_output(stderr: Seq<u8>, stdout: Seq<u8>) -> Seq<char> {
    output_text(utf8_lossy(stderr), utf8_lossy(stdout))
}

/// The text of a command's output when both streams are ASCII: each byte is
/// the character with the same code.
pub open spec fn ascii_command_output(stderr: Seq<u8>, stdout: Seq<u8>) -> Seq<char> {
    output_text(ascii_chars(stderr), ascii_chars(stdout))
}

/// An error message for a failed command with the given output text: the
/// prefix alone, or the prefix, a colon and at most the first 300 characters
/// of the output.
pub open spec fn error_text(prefix: Seq<char>, message: Seq<char>) -> Seq<char> {
    if message.len() == 0 {
        prefix
    } else if message.len() <= COMMAND_ERROR_LIMIT {
        prefix + ": "@ + message
    } else {
        prefix + ": "@ + message.take(COMMAND_ERROR_LIMIT as int)
    }
}

pub open spec fn spec_command_error(prefix: Seq<char>, stderr: Seq<u8>, stdout: Seq<u8>) -> Seq<
    char,
> {
    error_text(prefix, spec_command_output(stderr, stdout))
}

fn command_output_chars(stderr: &[u8], stdout: &[u8]) -> (text: Vec<char>)
    ensures
        text@ == spec_command_output(stderr@, stdout@),
        valid_utf8(stderr@) && valid_utf8(stdout@) ==> text@ == output_text(
            decode_utf8(stderr@),
            decode_utf8(stdout@),
        ),
        is_ascii_bytes(stderr@) && is_ascii_bytes(stdout@) ==> text@ == ascii_command_output(
            stderr@,
            stdout@,
        ),
{
    let err = lossy_chars(stderr);
    if only_white_space(err.as_slice()) {
        let out = lossy_chars(stdout);
        collapse_chars(out.as_slice())
    } else {
        collapse_chars(err.as_slice())
    }
}

pub fn command_output(stderr: &[u8], stdout: &[u8]) -> (text: String)
    ensures
        text@ == spec_command_output(stderr@, stdout@),
        valid_utf8(stderr@) && valid_utf8(stdout@) ==> text@ == output_text(
            decode_utf8(stderr@),
            decode_utf8(stdout@),
        ),
        is_ascii_bytes(stderr@) && is_ascii_bytes(stdout@) ==> text@ == ascii_command_output(
            stderr@,
            stdout@,
        ),
        words(text@) == words(if all_white_space(utf8_lossy(stderr@)) {
            utf8_lossy(stdout@)
        } else {
            utf8_lossy(stderr@)
        }),
        collapse_white_space(text@) == text@,
{
    proof {
        let err = utf8_lossy(stderr@);
        let raw = if all_white_space(err) {
            utf8_lossy(stdout@)
        } else {
            err
        };
        law_collapse_keeps_words(raw);
        law_collapse_idempotent(raw);
    }
    let text = command_output_chars(stderr, stdout);
    string_from_chars(text.as_slice())
}

pub fn command_error(prefix: &str, stderr: &[u8], stdout: &[u8]) -> (message: String)
    ensures
        message@ == spec_command_error(prefix@, stderr@, stdout@),
        valid_utf8(stderr@) && valid_utf8(stdout@) ==> message@ == error_text(
            prefix@,
            output_text(decode_utf8(stderr@), decode_utf8(stdout@)),
        ),
        is_ascii_bytes(stderr@) && is_ascii_bytes(stdout@) ==> message@ == error_text(
            prefix@,
            ascii_command_output(stderr@, stdout@),
        ),
        message@.len() <= prefix@.len() + 2 + COMMAND_ERROR_LIMIT,
{
    let output = command_output_chars(stderr, stdout);
    if output.len() == 0 {
        return prefix.to_owned();
    }
    let mut message = chars_of(prefix);
    let separator = chars_of(": ");
    message.extend_from_slice(separator.as_slice());
    let ghost head = message@;
    let kept = if output.len() <= COMMAND_ERROR_LIMIT {
        output.len()
    } else {
        COMMAND_ERROR_LIMIT
    };
    let mut i: usize = 0;
    while i < kept
        invariant
            kept <= output@.len(),
            i <= kept,
            message@ == head + output@.take(i as int),
        decreases kept - i,
    {
        message.push(output[i]);
        assert(output@.take(i as int).push(output@[i as int]) == output@.take(i + 1));
        i = i + 1;
    }
    assert(head =~= prefix@ + ": "@);
    proof {
        reveal_strlit(": ");
    }
    if output.len() <= COMMAND_ERROR_LIMIT {
        assert(output@.take(kept as int) == output@);
    }
    string_from_chars(message.as_slice())
}

/// The last `COMMAND_LOG_LIMIT` bytes of the log followed by the chunk.
/// The kept output never exceeds the limit, ends with the newest bytes, and
/// loses nothing while the limit is not reached.
pub proof fn law_limited_log(log: Seq<u8>, chunk: Seq<u8>)
    ensures
        spec_limited_log(log, chunk).len() <= COMMAND_LOG_LIMIT || spec_limited_log(log, chunk)
            == log + chunk,
        spec_limited_log(log, chunk).len() == if (log + chunk).len() > COMMAND_LOG_LIMIT {
            COMMAND_LOG_LIMIT as int
        } else {
            (log + chunk).len() as int
        },
        forall|i: int|
            0 <= i < spec_limited_log(log, chunk).len() ==> #[trigger] spec_limited_log(log, chunk)[i]
                == (log + chunk)[(log + chunk).len() - spec_limited_log(log, chunk).len() + i],
        chunk.len() <= COMMAND_LOG_LIMIT ==> spec_limited_log(log, chunk).skip(
            spec_limited_log(log, chunk).len() - chunk.len(),
        ) == chunk,
{
    let all = log + chunk;
    let kept = spec_limited_log(log, chunk);
    if chunk.len() <= COMMAND_LOG_LIMIT {
        assert(kept.skip(kept.len() - chunk.len()) =~= chunk) by {
            assert forall|k: int| 0 <= k < chunk.len() implies kept.skip(kept.len() - chunk.len())[k]
                == chunk[k] by {
                assert(kept[kept.len() - chunk.len() + k] == all[all.len() - kept.len() + (kept.len()
                    - chunk.len() + k)]);
            }
        }
    }
}

/// An error message starts with its prefix; it is the prefix alone exactly
/// when the output is empty, and otherwise quotes a start of the output of
/// at most 300 characters after a colon and a space.
pub proof fn law_error_text(prefix: Seq<char>, message: Seq<char>)
    ensures
        error_text(prefix, message).take(prefix.len() as int) == prefix,
        (error_text(prefix, message) == prefix) <==> message.len() == 0,
        message.len() > 0 ==> {
            let quoted = error_text(prefix, message).skip(prefix.len() + 2int);
            &&& error_text(prefix, message).subrange(prefix.len() as int, prefix.len() + 2int)
                == ": "@
            &&& quoted.len() == if message.len() <= COMMAND_ERROR_LIMIT {
                message.len() as int
            } else {
                COMMAND_ERROR_LIMIT as int
            }
            &&& quoted == message.take(quoted.len() as int)
        },
{
    reveal_strlit(": ");
    let t = error_text(prefix, message);
    assert(t.take(prefix.len() as int) =~= prefix);
    if message.len() > 0 {
        assert(t.len() > prefix.len());
        assert(t.subrange(prefix.len() as int, prefix.len() + 2int) =~= ": "@);
        let quoted = t.skip(prefix.len() + 2int);
        if message.len() <= COMMAND_ERROR_LIMIT {
            assert(quoted =~= message);
            assert(message.take(message.len() as int) =~= message);
        } else {
            assert(quoted =~= message.take(COMMAND_ERROR_LIMIT as int));
        }
    }
}

pub open spec fn spec_limited_log(log: Seq<u8>, chunk: Seq<u8>) -> Seq<u8> {
    let all = log + chunk;
    if all.len() > COMMAND_LOG_LIMIT {
        all.skip(all.len() - COMMAND_LOG_LIMIT)
    } else {
        all
    }
}

/// Appends what a process printed to the kept output, dropping its oldest
/// bytes beyond `COMMAND_LOG_LIMIT`.
pub fn append_limited_log(log: &mut Vec<u8>, chunk: &[u8])
    ensures
        final(log)@ == spec_limited_log(old(log)@, chunk@),
        final(log)@.len() <= COMMAND_LOG_LIMIT || final(log)@ == old(log)@ + chunk@,
{
    let ghost before = log@;
    log.extend_from_slice(chunk);
    assert(log@ =~= before + chunk@);
    if log.len() > COMMAND_LOG_LIMIT {
        let excess = log.len() - COMMAND_LOG_LIMIT;
        let kept = log.split_off(excess);
        *log = kept;
        assert(log@ =~= (before + chunk@).skip(excess as int));
    }
}

/// What OpenConnect prints once the tunnel is up.
pub open spec fn says_connected(text: Seq<char>) -> bool {
    let lower = ascii_lowercase(text);
    ||| contains_text(lower, "connected as"@)
    ||| contains_text(lower, "esp session established"@)
    ||| contains_text(lower, "cstp connected"@)
}

proof fn lemma_ascii_lower_idempotent(c: char)
    ensures
        ascii_lower(ascii_lower(c)) == ascii_lower(c),
{
}

/// Output shows the tunnel up exactly when, ignoring ASCII case, it holds
/// `connected as`, `esp session established` or `cstp connected`: text with
/// none of these (such as `Connected to <address>`) is not connected, and
/// the case of the letters does not matter.
pub proof fn law_says_connected_markers(text: Seq<char>)
    ensures
        !contains_text(ascii_lowercase(text), "connected as"@) && !contains_text(
            ascii_lowercase(text),
            "esp session established"@,
        ) && !contains_text(ascii_lowercase(text), "cstp connected"@) ==> !says_connected(text),
        contains_text(ascii_lowercase(text), "connected as"@) ==> says_connected(text),
        contains_text(ascii_lowercase(text), "esp session established"@) ==> says_connected(text),
        contains_text(ascii_lowercase(text), "cstp connected"@) ==> says_connected(text),
        says_connected(ascii_lowercase(text)) == says_connected(text),
{
    assert forall|i: int| 0 <= i < text.len() implies ascii_lower(ascii_lower(text[i])) == ascii_lower(
        text[i],
    ) by {
        lemma_ascii_lower_idempotent(text[i]);
    }
    assert(ascii_lowercase(ascii_lowercase(text)) =~= ascii_lowercase(text));
}

/// Whether the kept output shows that the tunnel is up.
pub fn output_says_connected(log: &[u8]) -> (connected: bool)
    ensures
        connected == says_connected(utf8_lossy(log@)),
        is_ascii_bytes(log@) ==> connected == says_connected(ascii_chars(log@)),
        valid_utf8(log@) ==> connected == says_connected(decode_utf8(log@)),
{
    let text = lossy_chars(log);
    let lower = lower_ascii(text.as_slice());
    let connected_as = chars_of("connected as");
    let esp = chars_of("esp session established");
    let cstp = chars_of("cstp connected");
    find_text(lower.as_slice(), connected_as.as_slice()) || find_text(
        lower.as_slice(),
        esp.as_slice(),
    ) || find_text(lower.as_slice(), cstp.as_slice())
}

/// Why a connection attempt ended before the tunnel came up.
#[derive(Debug)]
pub enum ConnectionAttemptError {
    Cancelled,
    Local(VpnBackendError),
    Unavailable,
}

/// The reading of a connection process that exited: refused authorization,
/// no output at all, or a failure that quotes the output.
pub fn connection_exit_error(exit_code: Option<i32>, log: &[u8]) -> (error: ConnectionAttemptError)
    ensures
        exit_code == Some(AUTHORIZATION_REFUSED_CODE) ==> error is Cancelled,
        exit_code != Some(AUTHORIZATION_REFUSED_CODE) && log@.len() == 0 ==> error is Unavailable,
        exit_code != Some(AUTHORIZATION_REFUSED_CODE) && log@.len() > 0 ==> (error matches ConnectionAttemptError::Local(e) && e@ == (
            Some(BackendErrorMessage::ConnectionStartFailed),
            spec_command_output(log@, Seq::<u8>::empty()),
        )),
        exit_code != Some(AUTHORIZATION_REFUSED_CODE) && log@.len() > 0 && is_ascii_bytes(log@)
            ==> (error matches ConnectionAttemptError::Local(e) && e@.1 == ascii_command_output(
            log@,
            Seq::<u8>::empty(),
        )),
{
    if exit_code == Some(AUTHORIZATION_REFUSED_CODE) {
        return ConnectionAttemptError::Cancelled;
    }
    if log.len() == 0 {
        ConnectionAttemptError::Unavailable
    } else {
        let nothing: Vec<u8> = Vec::new();
        ConnectionAttemptError::Local(
            VpnBackendError::localized_with_detail(
                BackendErrorMessage::ConnectionStartFailed,
                command_output(log, nothing.as_slice()),
            ),
        )
    }
}

/// The error that a failed connection attempt is reported with.
pub fn connection_failure(error: ConnectionAttemptError) -> (reported: VpnBackendError)
    ensures
        error is Cancelled ==> reported@ == (
            Some(BackendErrorMessage::AuthorizationCancelled),
            Seq::<char>::empty(),
        ),
        error is Unavailable ==> reported@ == (
            Some(BackendErrorMessage::ConnectionUnavailable),
            Seq::<char>::empty(),
        ),
        error matches ConnectionAttemptError::Local(e) ==> reported == e,
{
    match error {
        ConnectionAttemptError::Cancelled => VpnBackendError::localized(
            BackendErrorMessage::AuthorizationCancelled,
        ),
        ConnectionAttemptError::Local(error) => error,
        ConnectionAttemptError::Unavailable => VpnBackendError::localized(
            BackendErrorMessage::ConnectionUnavailable,
        ),
    }
}

/// What a connection attempt does after one look at the process that has
/// not exited.
#[derive(Clone, Copy, Debug, PartialEq, Eq, Structural)]
pub enum AttemptProgress {
    /// The output shows the tunnel up: the session is verified.
    Connected,
    /// OpenConnect has run for the whole observation window without saying
    /// that it is connected: the session is kept, unverified.
    Unverified(u32),
    /// Look again after a pause.
    Waiting,
}

pub open spec fn spec_attempt_progress(
    says_connected: bool,
    openconnect_pid: Option<u32>,
    window_elapsed: bool,
) -> AttemptProgress {
    if says_connected {
        AttemptProgress::Connected
    } else if openconnect_pid is Some && window_elapsed {
        AttemptProgress::Unverified(openconnect_pid->0)
    } else {
        AttemptProgress::Waiting
    }
}

/// Output that says the tunnel is up makes the session verified, whatever
/// the PID and the window; a session is kept unverified only when the output
/// does not say so, OpenConnect's PID is known and the window has passed;
/// otherwise the attempt waits.
pub proof fn law_attempt_progress(says: bool, openconnect_pid: Option<u32>, window_elapsed: bool)
    ensures
        says ==> spec_attempt_progress(says, openconnect_pid, window_elapsed)
            == AttemptProgress::Connected,
        spec_attempt_progress(says, openconnect_pid, window_elapsed) == AttemptProgress::Connected
            ==> says,
        spec_attempt_progress(says, openconnect_pid, window_elapsed) matches AttemptProgress::Unverified(
            pid,
        ) ==> !says && openconnect_pid == Some(pid) && window_elapsed,
        !says && openconnect_pid is Some && window_elapsed ==> spec_attempt_progress(
            says,
            openconnect_pid,
            window_elapsed,
        ) == AttemptProgress::Unverified(openconnect_pid->0),
        spec_attempt_progress(says, openconnect_pid, window_elapsed) == AttemptProgress::Waiting
            <==> (!says && !(openconnect_pid is Some && window_elapsed)),
{
}

/// `window_elapsed` tells whether the observation window has passed since
/// the OpenConnect process was found.
pub fn attempt_progress(says_connected: bool, openconnect_pid: Option<u32>, window_elapsed: bool) -> (progress:
    AttemptProgress)
    ensures
        progress == spec_attempt_progress(says_connected, openconnect_pid, window_elapsed),
{
    if says_connected {
        return AttemptProgress::Connected;
    }
    match openconnect_pid {
        Some(pid) if window_elapsed => AttemptProgress::Unverified(pid),
        _ => AttemptProgress::Waiting,
    }
}

/// What waiting on a session's process told.
#[derive(Clone, Copy, Debug, PartialEq, Eq, Structural)]
pub enum ProcessWait {
    Exited,
    Running,
    Failed,
}

/// The status of a session: its process exited, or could not be watched,
/// or, on Linux, no longer runs OpenConnect under its PID.
pub fn session_status(wait: ProcessWait, is_linux: bool, is_openconnect: bool) -> (status: Result<
    SessionStatus,
    VpnBackendError,
>)
    ensures
        wait == ProcessWait::Exited ==> status == Ok::<SessionStatus, VpnBackendError>(
            SessionStatus::Exited,
        ),
        wait == ProcessWait::Failed ==> (status matches Err(e) && e@ == (
            Some(BackendErrorMessage::ProcessMonitoringFailed),
            Seq::<char>::empty(),
        )),
        wait == ProcessWait::Running ==> status == Ok::<SessionStatus, VpnBackendError>(
            if is_linux && !is_openconnect {
                SessionStatus::Exited
            } else {
                SessionStatus::Active
            },
        ),
{
    match wait {
        ProcessWait::Exited => Ok(SessionStatus::Exited),
        ProcessWait::Failed => Err(
            VpnBackendError::localized(BackendErrorMessage::ProcessMonitoringFailed),
        ),
        ProcessWait::Running => {
            if is_linux && !is_openconnect {
                Ok(SessionStatus::Exited)
            } else {
                Ok(SessionStatus::Active)
            }
        },
    }
}

/// What a session knows of itself: its PID, whether the connection was
/// seen up, and whether its process has exited.
pub struct SessionRecord {
    pid: u32,
    verified: bool,
    exited: bool,
}

pub struct SessionView {
    pub pid: u32,
    pub verified: bool,
    pub exited: bool,
}

impl View for SessionRecord {
    type V = SessionView;

    closed spec fn view(&self) -> SessionView {
        SessionView { pid: self.pid, verified: self.verified, exited: self.exited }
    }
}

impl SessionRecord {
    pub fn new(pid: u32, verified: bool) -> (record: Self)
        ensures
            record@ == (SessionView { pid, verified, exited: false }),
    {
        SessionRecord { pid, verified, exited: false }
    }

    pub fn pid(&self) -> (pid: u32)
        ensures
            pid == self@.pid,
    {
        self.pid
    }

    pub fn verified(&self) -> (verified: bool)
        ensures
            verified == self@.verified,
    {
        self.verified
    }

    /// One poll of the session. Once its process has exited, every later
    /// poll reports it exited; the PID and the verification never change.
    pub fn poll(&mut self, wait: ProcessWait, is_linux: bool, is_openconnect: bool) -> (status:
        Result<SessionStatus, VpnBackendError>)
        ensures
            final(self)@.pid == old(self)@.pid,
            final(self)@.verified == old(self)@.verified,
            final(self)@.exited == (old(self)@.exited || wait == ProcessWait::Exited),
            final(self)@.exited ==> status == Ok::<SessionStatus, VpnBackendError>(
                SessionStatus::Exited,
            ),
            !old(self)@.exited && wait == ProcessWait::Failed ==> (status matches Err(e) && e@ == (
                Some(BackendErrorMessage::ProcessMonitoringFailed),
                Seq::<char>::empty(),
            )),
            !old(self)@.exited && wait == ProcessWait::Running ==> status == Ok::<
                SessionStatus,
                VpnBackendError,
            >(
                if is_linux && !is_openconnect {
                    SessionStatus::Exited
                } else {
                    SessionStatus::Active
                },
            ),
    {
        if self.exited {
            return Ok(SessionStatus::Exited);
        }
        if wait == ProcessWait::Exited {
            self.exited = true;
        }
        session_status(wait, is_linux, is_openconnect)
    }
}

/// The reading of `pkexec kill`'s end: success, or a failure that quotes
/// its standard error.
pub fn kill_outcome(succeeded: bool, stderr: &[u8]) -> (outcome: Result<(), VpnBackendError>)
    ensures
        outcome is Ok <==> succeeded,
        outcome matches Err(e) ==> e@ == (
            Some(BackendErrorMessage::DisconnectFailed),
            spec_command_output(stderr@, Seq::<u8>::empty()),
        ),
        outcome matches Err(e) ==> (is_ascii_bytes(stderr@) ==> e@.1 == ascii_command_output(
            stderr@,
            Seq::<u8>::empty(),
        )),
{
    if succeeded {
        Ok(())
    } else {
        let nothing: Vec<u8> = Vec::new();
        Err(
            VpnBackendError::localized_with_detail(
                BackendErrorMessage::DisconnectFailed,
                command_output(stderr, nothing.as_slice()),
            ),
        )
    }
}

/// Where a disconnection stands after checking whether the tunnel runs.
pub enum DisconnectCheck {
    /// The tunnel is gone.
    Gone,
    /// Check again after a pause.
    CheckAgain,
    /// The tunnel still runs after every check.
    StillActive(VpnBackendError),
}

/// The checks of a disconnection: at most `DISCONNECT_CHECKS` of them.
pub struct DisconnectWatch {
    checks_made: usize,
}

impl View for DisconnectWatch {
    /// How many checks were made.
    type V = nat;

    closed spec fn view(&self) -> nat {
        self.checks_made as nat
    }
}

impl DisconnectWatch {
    /// No more than `DISCONNECT_CHECKS` checks are ever counted.
    #[verifier::type_invariant]
    closed spec fn bounded(self) -> bool {
        self.checks_made <= DISCONNECT_CHECKS
    }

    pub fn new() -> (watch: Self)
        ensures
            watch@ == 0,
    {
        DisconnectWatch { checks_made: 0 }
    }

    /// One check of whether the tunnel still runs. Each call counts one
    /// check, up to `DISCONNECT_CHECKS`; a check-again answer comes only
    /// while fewer checks than that were made, so a disconnection waits
    /// through at most `DISCONNECT_CHECKS` checks.
    pub fn check(&mut self, connected: bool) -> (check: DisconnectCheck)
        ensures
            final(self)@ == (if old(self)@ < DISCONNECT_CHECKS {
                old(self)@ + 1
            } else {
                old(self)@
            }),
            final(self)@ <= DISCONNECT_CHECKS,
            !connected ==> check is Gone,
            check is CheckAgain ==> final(self)@ < DISCONNECT_CHECKS,
            connected && final(self)@ < DISCONNECT_CHECKS ==> check is CheckAgain,
            connected && final(self)@ >= DISCONNECT_CHECKS ==> (check matches DisconnectCheck::StillActive(e)
                && e@ == (Some(BackendErrorMessage::DisconnectStillActive), Seq::<char>::empty())),
    {
        proof {
            use_type_invariant(&*self);
        }
        if self.checks_made < DISCONNECT_CHECKS {
            self.checks_made = self.checks_made + 1;
        }
        if !connected {
            DisconnectCheck::Gone
        } else if self.checks_made < DISCONNECT_CHECKS {
            DisconnectCheck::CheckAgain
        } else {
            DisconnectCheck::StillActive(
                VpnBackendError::localized(BackendErrorMessage::DisconnectStillActive),
            )
        }
    }
}

/// The PID of a session whose output shows the tunnel up: the OpenConnect
/// process found before, else the one found now, else the supervisor.
pub fn session_pid(found_before: Option<u32>, found_now: Option<u32>, supervisor: u32) -> (pid: u32)
    ensures
        pid == (match found_before {
            Some(p) => p,
            None => match found_now {
                Some(p) => p,
                None => supervisor,
            },
        }),
{
    match found_before {
        Some(pid) => pid,
        None => match found_now {
            Some(pid) => pid,
            None => supervisor,
        },
    }
}

/// The end of a connection: the session, or the error that reports why the
/// attempt failed.
pub fn connect_result<S>(attempt: Result<S, ConnectionAttemptError>) -> (result: Result<S, VpnBackendError>)
    ensures
        attempt matches Ok(session) ==> result matches Ok(s) && s == session,
        attempt matches Err(ConnectionAttemptError::Cancelled) ==> (result matches Err(e) && e@ == (
            Some(BackendErrorMessage::AuthorizationCancelled),
            Seq::<char>::empty(),
        )),
        attempt matches Err(ConnectionAttemptError::Unavailable) ==> (result matches Err(e) && e@ == (
            Some(BackendErrorMessage::ConnectionUnavailable),
            Seq::<char>::empty(),
        )),
        attempt matches Err(ConnectionAttemptError::Local(local)) ==> (result matches Err(e) && e == local),
{
    match attempt {
        Ok(session) => Ok(session),
        Err(error) => Err(connection_failure(error)),
    }
}

/// A PID read from a file is above 1 and is the decimal number the trimmed
/// text spells.
pub proof fn law_pid_from_file(text: Seq<char>)
    ensures
        spec_pid_from_file(text) matches Some(pid) ==> (pid > 1 && parse_u32(trim(text)) == Some(
            pid,
        )),
        parse_u32(trim(text)) matches Some(pid) ==> (pid > 1 <==> spec_pid_from_file(text) is Some),
{
}

pub open spec fn spec_pid_from_file(text: Seq<char>) -> Option<u32> {
    match parse_u32(trim(text)) {
        Some(pid) => if pid > 1 {
            Some(pid)
        } else {
            None
        },
        None => None,
    }
}

pub fn pid_from_file(text: &str) -> (pid: Option<u32>)
    ensures
        pid == spec_pid_from_file(text@),
{
    let chars = chars_of(text);
    let trimmed = trim_chars(chars.as_slice());
    match parse_decimal_u32(trimmed.as_slice()) {
        Some(pid) => if pid > 1 {
            Some(pid)
        } else {
            None
        },
        None => None,
    }
}

/// Whether a process's `comm` file names OpenConnect.
pub fn is_openconnect_comm(comm: &str) -> (is_openconnect: bool)
    ensures
        is_openconnect == (trim(comm@) == "openconnect"@),
{
    let chars = chars_of(comm);
    let trimmed = trim_chars(chars.as_slice());
    let name = chars_of("openconnect");
    same_chars(trimmed.as_slice(), name.as_slice())
}

/// The numbers among the whitespace-separated words, in order.
pub open spec fn parsed_pids(pieces: Seq<Seq<char>>) -> Seq<u32>
    decreases pieces.len(),
{
    if pieces.len() == 0 {
        Seq::empty()
    } else {
        let rest = parsed_pids(pieces.drop_last());
        match parse_u32(pieces.last()) {
            Some(pid) => rest.push(pid),
            None => rest,
        }
    }
}

/// The numbers among some words keep their order and nothing else is
/// kept: words that are all numbers give each its number, words that are
/// none give nothing, and the numbers of two lists one after the other are
/// those of the first followed by those of the second.
pub proof fn law_parsed_pids(first: Seq<Seq<char>>, second: Seq<Seq<char>>)
    ensures
        parsed_pids(first).len() <= first.len(),
        parsed_pids(first + second) == parsed_pids(first) + parsed_pids(second),
        (forall|i: int| 0 <= i < first.len() ==> #[trigger] parse_u32(first[i]) is Some)
            ==> parsed_pids(first) == first.map_values(|w: Seq<char>| parse_u32(w)->0),
        (forall|i: int| 0 <= i < first.len() ==> #[trigger] parse_u32(first[i]) is None)
            ==> parsed_pids(first).len() == 0,
    decreases first.len() + second.len(),
{
    if second.len() > 0 {
        law_parsed_pids(first, second.drop_last());
        assert((first + second).drop_last() == first + second.drop_last());
        assert((first + second).last() == second.last());
    } else {
        assert(first + second == first);
        if first.len() > 0 {
            law_parsed_pids(first.drop_last(), second);
            if forall|i: int| 0 <= i < first.len() ==> #[trigger] parse_u32(first[i]) is Some {
                assert forall|i: int| 0 <= i < first.drop_last().len() implies #[trigger] parse_u32(
                    first.drop_last()[i],
                ) is Some by {
                    assert(first.drop_last()[i] == first[i]);
                }
                assert(parse_u32(first[first.len() - 1]) is Some);
                assert(parsed_pids(first) =~= first.map_values(|w: Seq<char>| parse_u32(w)->0));
            }
            if forall|i: int| 0 <= i < first.len() ==> #[trigger] parse_u32(first[i]) is None {
                assert forall|i: int| 0 <= i < first.drop_last().len() implies #[trigger] parse_u32(
                    first.drop_last()[i],
                ) is None by {
                    assert(first.drop_last()[i] == first[i]);
                }
                assert(parse_u32(first[first.len() - 1]) is None);
            }
        } else {
            assert(parsed_pids(first) =~= first.map_values(|w: Seq<char>| parse_u32(w)->0));
        }
    }
}

/// The PIDs listed in a `/proc/<pid>/task/<pid>/children` file.
pub fn child_pids(text: &str) -> (pids: Vec<u32>)
    ensures
        pids@ == parsed_pids(words(text@)),
{
    let chars = chars_of(text);
    let pieces = split_words(chars.as_slice());
    let mut pids: Vec<u32> = Vec::new();
    let mut i: usize = 0;
    while i < pieces.len()
        invariant
            i <= pieces@.len(),
            pieces_view(pieces@) == words(text@),
            pids@ == parsed_pids(pieces_view(pieces@).take(i as int)),
        decreases pieces@.len() - i,
    {
        let ghost done = pieces_view(pieces@).take(i as int);
        let ghost next = pieces_view(pieces@).take(i + 1);
        assert(next.drop_last() == done);
        assert(next.last() == pieces@[i as int]@);
        match parse_decimal_u32(pieces[i].as_slice()) {
            Some(pid) => pids.push(pid),
            None => {},
        }
        i = i + 1;
    }
    assert(pieces_view(pieces@).take(pieces@.len() as int) == pieces_view(pieces@));
    pids
}

/// What one process shows under `/proc`: whether it runs OpenConnect, and
/// the children that its `children` file lists (none where it cannot be
/// read).
pub struct ProcessEntry {
    pub openconnect: bool,
    pub children: Seq<u32>,
}

/// The search for the OpenConnect process under the `pkexec` supervisor: a
/// depth-first walk of the process tree, each process before its children
/// and the children in the order that `/proc` lists them, stopping at the
/// first OpenConnect process. On other systems than Linux the supervisor
/// itself is the answer.
pub struct PidSearch {
    linux: bool,
    root: u32,
    pending: Vec<u32>,
    current: Option<u32>,
    found: Option<u32>,
    visited: Ghost<Seq<u32>>,
    observed: Ghost<Map<u32, ProcessEntry>>,
    edges: Ghost<Set<(u32, u32)>>,
}

pub struct SearchView {
    pub linux: bool,
    /// The supervisor, where the walk starts.
    pub root: u32,
    /// The processes still to look at, the next one last.
    pub pending: Seq<u32>,
    /// The process handed out and not yet reported on.
    pub current: Option<u32>,
    pub found: Option<u32>,
    /// The processes reported on, in the order of the walk.
    pub visited: Seq<u32>,
    /// What was reported of each process, the latest report.
    pub observed: Map<u32, ProcessEntry>,
    /// Every parent and child pair that a report listed.
    pub edges: Set<(u32, u32)>,
}

impl View for PidSearch {
    type V = SearchView;

    closed spec fn view(&self) -> SearchView {
        SearchView {
            linux: self.linux,
            root: self.root,
            pending: self.pending@,
            current: self.current,
            found: self.found,
            visited: self.visited@,
            observed: self.observed@,
            edges: self.edges@,
        }
    }
}

/// The supervisor, or a child listed in a report on a process of the walk.
pub open spec fn reached(v: SearchView, pid: u32) -> bool {
    pid == v.root || exists|parent: u32| #[trigger] v.edges.contains((parent, pid))
}

/// What holds at every step of the walk.
pub open spec fn search_wf(v: SearchView) -> bool {
    &&& !v.linux ==> v.found == Some(v.root) && v.pending.len() == 0 && v.current is None
        && v.visited.len() == 0
    &&& v.current is Some ==> v.found is None
    &&& forall|i: int| 0 <= i < v.visited.len() ==> v.observed.contains_key(#[trigger] v.visited[i])
    &&& forall|i: int|
        0 <= i < v.visited.len() && v.observed[#[trigger] v.visited[i]].openconnect ==> v.found
            == Some(v.visited[i])
    &&& v.linux && v.found is Some ==> {
        &&& v.observed.contains_key(v.found->0)
        &&& v.observed[v.found->0].openconnect
        &&& v.visited.contains(v.found->0)
        &&& v.pending.len() == 0
        &&& v.current is None
    }
    &&& forall|e: (u32, u32)| #[trigger] v.edges.contains(e) ==> v.visited.contains(e.0)
    &&& forall|i: int| 0 <= i < v.visited.len() ==> reached(v, #[trigger] v.visited[i])
    &&& forall|j: int| 0 <= j < v.pending.len() ==> reached(v, #[trigger] v.pending[j])
    &&& v.current matches Some(c) ==> reached(v, c)
    &&& forall|i: int, c: u32|
        0 <= i < v.visited.len() && #[trigger] v.observed[v.visited[i]].children.contains(c)
            ==> v.edges.contains((v.visited[i], c))
    &&& v.found is None ==> forall|i: int, c: u32|
        0 <= i < v.visited.len() && #[trigger] v.observed[v.visited[i]].children.contains(c)
            ==> v.visited.contains(c) || v.pending.contains(c) || v.current == Some(c)
    &&& v.linux && v.found is None ==> v.visited.contains(v.root) || v.pending.contains(v.root)
        || v.current == Some(v.root)
}

/// A process found by the walk runs OpenConnect and is the supervisor or a
/// child of a process of the walk; every process looked at before it does
/// not run OpenConnect.
pub proof fn law_search_found(v: SearchView, pid: u32)
    requires
        search_wf(v),
        v.linux,
        v.found == Some(pid),
    ensures
        v.observed[pid].openconnect,
        pid == v.root || exists|parent: u32|
            v.visited.contains(parent) && #[trigger] v.edges.contains((parent, pid)),
        forall|i: int|
            0 <= i < v.visited.len() && v.observed[#[trigger] v.visited[i]].openconnect
                ==> v.visited[i] == pid,
{
    let i = choose|i: int| 0 <= i < v.visited.len() && v.visited[i] == pid;
    assert(reached(v, v.visited[i]));
    if pid != v.root {
        let parent = choose|parent: u32| #[trigger] v.edges.contains((parent, pid));
        assert(v.visited.contains((parent, pid).0));
    }
}

/// A walk that ends without finding OpenConnect has looked at the
/// supervisor and at every child listed by a process it looked at, and none
/// of them runs OpenConnect: there is no OpenConnect process in the
/// readable tree under the supervisor.
pub proof fn law_search_exhausted(v: SearchView)
    requires
        search_wf(v),
        v.linux,
        v.found is None,
        v.pending.len() == 0,
        v.current is None,
    ensures
        v.visited.contains(v.root),
        forall|i: int| 0 <= i < v.visited.len() ==> !v.observed[#[trigger] v.visited[i]].openconnect,
        forall|i: int, c: u32|
            0 <= i < v.visited.len() && #[trigger] v.observed[v.visited[i]].children.contains(c)
                ==> v.visited.contains(c),
{
}

impl PidSearch {
    /// Every search value is one that the walk can reach.
    #[verifier::type_invariant]
    closed spec fn walk_invariant(self) -> bool {
        search_wf(self@)
    }

    /// What holds at every step of the walk, for every search value.
    pub fn well_formed(&self) -> (holds: bool)
        ensures
            holds,
            search_wf(self@),
    {
        proof {
            use_type_invariant(self);
        }
        true
    }

    pub fn new(root: u32, is_linux: bool) -> (search: Self)
        ensures
            search_wf(search@),
            search@.root == root,
            search@.linux == is_linux,
            search@.current is None,
            search@.visited.len() == 0,
            is_linux ==> search@.pending == seq![root] && search@.found is None,
            !is_linux ==> search@.found == Some(root),
    {
        if is_linux {
            let mut pending: Vec<u32> = Vec::new();
            pending.push(root);
            assert(pending@[0] == root);
            assert(pending@.contains(root));
            assert(pending@ =~= seq![root]);
            let search = PidSearch {
                linux: true,
                root,
                pending,
                current: None,
                found: None,
                visited: Ghost(Seq::empty()),
                observed: Ghost(Map::empty()),
                edges: Ghost(Set::empty()),
            };
            search
        } else {
            PidSearch {
                linux: false,
                root,
                pending: Vec::new(),
                current: None,
                found: Some(root),
                visited: Ghost(Seq::empty()),
                observed: Ghost(Map::empty()),
                edges: Ghost(Set::empty()),
            }
        }
    }

    /// The next process to look at: the one handed out and not yet reported
    /// on, else the last pending one; none once found or exhausted.
    pub fn next_pid(&mut self) -> (pid: Option<u32>)
        ensures
            search_wf(final(self)@),
            final(self)@.linux == old(self)@.linux,
            final(self)@.root == old(self)@.root,
            final(self)@.found == old(self)@.found,
            final(self)@.visited == old(self)@.visited,
            final(self)@.observed == old(self)@.observed,
            final(self)@.edges == old(self)@.edges,
            old(self)@.found is Some ==> pid is None && final(self)@ == old(self)@,
            old(self)@.found is None && old(self)@.current is Some ==> pid == old(self)@.current
                && final(self)@ == old(self)@,
            old(self)@.found is None && old(self)@.current is None && old(self)@.pending.len() == 0
                ==> pid is None && final(self)@ == old(self)@,
            old(self)@.found is None && old(self)@.current is None && old(self)@.pending.len() > 0
                ==> pid == Some(old(self)@.pending.last()) && final(self)@.current == pid
                && final(self)@.pending == old(self)@.pending.drop_last(),
    {
        proof {
            use_type_invariant(&*self);
        }
        if self.found.is_some() {
            return None;
        }
        if self.current.is_some() {
            return self.current;
        }
        let ghost before = self@;
        let mut pending = self.pending.clone();
        assert(pending@ =~= before.pending);
        match pending.pop() {
            None => None,
            Some(pid) => {
                let ghost v = SearchView {
                    linux: before.linux,
                    root: before.root,
                    pending: pending@,
                    current: Some(pid),
                    found: None,
                    visited: before.visited,
                    observed: before.observed,
                    edges: before.edges,
                };
                proof {
                    assert forall|j: int| 0 <= j < v.pending.len() implies reached(
                        v,
                        #[trigger] v.pending[j],
                    ) by {
                        assert(v.pending[j] == before.pending[j]);
                        assert(reached(before, before.pending[j]));
                        if before.pending[j] != v.root {
                            let parent = choose|parent: u32| #[trigger] before.edges.contains((parent, before.pending[j]));
                            assert(v.edges.contains((parent, v.pending[j])));
                        }
                    }
                    assert(reached(v, pid)) by {
                        let last = before.pending.len() - 1;
                        assert(before.pending[last] == pid);
                        assert(reached(before, before.pending[last]));
                        if pid != v.root {
                            let parent = choose|parent: u32| #[trigger] before.edges.contains((parent, pid));
                            assert(v.edges.contains((parent, pid)));
                        }
                    }
                    assert forall|i: int, c: u32|
                        0 <= i < v.visited.len() && #[trigger] v.observed[v.visited[i]].children.contains(c)
                            implies v.visited.contains(c) || v.pending.contains(c)
                        || v.current == Some(c) by {
                        if before.pending.contains(c) && c != pid {
                            let j = choose|j: int| 0 <= j < before.pending.len() && before.pending[j] == c;
                            assert(j < before.pending.len() - 1);
                            assert(v.pending[j] == c);
                        }
                    }
                    if before.pending.contains(v.root) && v.root != pid {
                        let j = choose|j: int| 0 <= j < before.pending.len() && before.pending[j] == v.root;
                        assert(j < before.pending.len() - 1);
                        assert(v.pending[j] == v.root);
                    }
                }
                *self = PidSearch {
                    linux: self.linux,
                    root: self.root,
                    pending,
                    current: Some(pid),
                    found: None,
                    visited: Ghost(self.visited@),
                    observed: Ghost(self.observed@),
                    edges: Ghost(self.edges@),
                };
                Some(pid)
            },
        }
    }

    /// Records what the process handed out by `next_pid` shows. An
    /// OpenConnect process ends the walk; otherwise its children come next,
    /// the first of them first.
    pub fn record(&mut self, is_openconnect: bool, children: &[u32])
        ensures
            search_wf(final(self)@),
            final(self)@.linux == old(self)@.linux,
            final(self)@.root == old(self)@.root,
            old(self)@.current is None ==> final(self)@ == old(self)@,
            old(self)@.current matches Some(pid) ==> {
                &&& final(self)@.current is None
                &&& final(self)@.visited == old(self)@.visited.push(pid)
                &&& final(self)@.observed == old(self)@.observed.insert(
                    pid,
                    ProcessEntry { openconnect: is_openconnect, children: children@ },
                )
                &&& is_openconnect ==> final(self)@.found == Some(pid)
                &&& !is_openconnect ==> final(self)@.found is None && final(self)@.pending
                    == old(self)@.pending + children@.reverse()
            },
    {
        proof {
            use_type_invariant(&*self);
        }
        let pid = match self.current {
            None => return,
            Some(pid) => pid,
        };
        let ghost before = self@;
        let ghost entry = ProcessEntry { openconnect: is_openconnect, children: children@ };
        let ghost visited = before.visited.push(pid);
        let ghost observed = before.observed.insert(pid, entry);
        let ghost edges = before.edges.union(Set::new(|e: (u32, u32)| e.0 == pid && children@.contains(e.1)));
        if is_openconnect {
            let ghost v = SearchView { linux: before.linux, root: before.root, pending: Seq::empty(), current: None, found: Some(pid), visited, observed, edges };
            proof {
                assert(v.visited[v.visited.len() - 1] == pid);
                assert forall|i: int| 0 <= i < v.visited.len() implies reached(v, #[trigger] v.visited[i]) by {
                    if i < before.visited.len() {
                        assert(v.visited[i] == before.visited[i]);
                        assert(reached(before, before.visited[i]));
                        if before.visited[i] != v.root {
                            let parent = choose|parent: u32| #[trigger] before.edges.contains((parent, before.visited[i]));
                            assert(v.edges.contains((parent, v.visited[i])));
                        }
                    } else {
                        assert(reached(before, pid));
                        if pid != v.root {
                            let parent = choose|parent: u32| #[trigger] before.edges.contains((parent, pid));
                            assert(v.edges.contains((parent, pid)));
                        }
                    }
                }
                assert forall|e: (u32, u32)| #[trigger] v.edges.contains(e) implies v.visited.contains(e.0) by {
                    if before.edges.contains(e) {
                        let k = choose|k: int| 0 <= k < before.visited.len() && before.visited[k] == e.0;
                        assert(v.visited[k] == e.0);
                    } else {
                        assert(v.visited[v.visited.len() - 1] == e.0);
                    }
                }
                assert forall|i: int, c: u32|
                    0 <= i < v.visited.len() && #[trigger] v.observed[v.visited[i]].children.contains(c)
                        implies v.edges.contains((v.visited[i], c)) by {
                    if v.visited[i] != pid {
                        assert(v.visited[i] == before.visited[i]);
                    }
                }
                assert forall|i: int|
                    0 <= i < v.visited.len() && v.observed[#[trigger] v.visited[i]].openconnect
                        implies v.found == Some(v.visited[i]) by {
                    if v.visited[i] != pid {
                        assert(v.visited[i] == before.visited[i]);
                    }
                }
                assert forall|i: int| 0 <= i < v.visited.len() implies v.observed.contains_key(
                    #[trigger] v.visited[i],
                ) by {
                    if i < before.visited.len() {
                        assert(v.visited[i] == before.visited[i]);
                    }
                }
            }
            *self = PidSearch {
                linux: self.linux,
                root: self.root,
                pending: Vec::new(),
                current: None,
                found: Some(pid),
                visited: Ghost(visited),
                observed: Ghost(observed),
                edges: Ghost(edges),
            };
        } else {
            let mut pending = self.pending.clone();
            assert(pending@ =~= before.pending);
            let mut k: usize = children.len();
            while k > 0
                invariant
                    k <= children@.len(),
                    pending@ == before.pending + children@.skip(k as int).reverse(),
                decreases k,
            {
                k = k - 1;
                pending.push(children[k]);
                assert(children@.skip(k as int).reverse() =~= children@.skip(k + 1).reverse().push(
                    children@[k as int],
                ));
            }
            assert(children@.skip(0) == children@);
            let ghost v = SearchView { linux: before.linux, root: before.root, pending: pending@, current: None, found: None, visited, observed, edges };
            proof {
                assert(v.visited[v.visited.len() - 1] == pid);
                assert forall|i: int| 0 <= i < v.visited.len() implies reached(v, #[trigger] v.visited[i]) by {
                    if i < before.visited.len() {
                        assert(v.visited[i] == before.visited[i]);
                        assert(reached(before, before.visited[i]));
                        if before.visited[i] != v.root {
                            let parent = choose|parent: u32| #[trigger] before.edges.contains((parent, before.visited[i]));
                            assert(v.edges.contains((parent, v.visited[i])));
                        }
                    } else {
                        assert(reached(before, pid));
                        if pid != v.root {
                            let parent = choose|parent: u32| #[trigger] before.edges.contains((parent, pid));
                            assert(v.edges.contains((parent, pid)));
                        }
                    }
                }
                assert forall|j: int| 0 <= j < v.pending.len() implies reached(v, #[trigger] v.pending[j]) by {
                    if j < before.pending.len() {
                        assert(v.pending[j] == before.pending[j]);
                        assert(reached(before, before.pending[j]));
                        if before.pending[j] != v.root {
                            let parent = choose|parent: u32| #[trigger] before.edges.contains((parent, before.pending[j]));
                            assert(v.edges.contains((parent, v.pending[j])));
                        }
                    } else {
                        let r = children@.reverse();
                        assert(v.pending[j] == r[j - before.pending.len()]);
                        assert(children@.contains(v.pending[j])) by {
                            assert(r[j - before.pending.len()] == children@[children@.len() - 1 - (j - before.pending.len())]);
                        }
                        assert(v.edges.contains((pid, v.pending[j])));
                    }
                }
                assert forall|e: (u32, u32)| #[trigger] v.edges.contains(e) implies v.visited.contains(e.0) by {
                    if before.edges.contains(e) {
                        let k2 = choose|k2: int| 0 <= k2 < before.visited.len() && before.visited[k2] == e.0;
                        assert(v.visited[k2] == e.0);
                    } else {
                        assert(v.visited[v.visited.len() - 1] == e.0);
                    }
                }
                assert forall|i: int, c: u32|
                    0 <= i < v.visited.len() && #[trigger] v.observed[v.visited[i]].children.contains(c)
                        implies v.edges.contains((v.visited[i], c)) by {
                    if v.visited[i] != pid {
                        assert(v.visited[i] == before.visited[i]);
                    }
                }
                assert forall|i: int|
                    0 <= i < v.visited.len() && v.observed[#[trigger] v.visited[i]].openconnect
                        implies v.found == Some(v.visited[i]) by {
                    if v.visited[i] != pid {
                        assert(v.visited[i] == before.visited[i]);
                    }
                }
                assert forall|i: int| 0 <= i < v.visited.len() implies v.observed.contains_key(
                    #[trigger] v.visited[i],
                ) by {
                    if i < before.visited.len() {
                        assert(v.visited[i] == before.visited[i]);
                    }
                }
                assert forall|i: int, c: u32|
                    0 <= i < v.visited.len() && #[trigger] v.observed[v.visited[i]].children.contains(c)
                        implies v.visited.contains(c) || v.pending.contains(c)
                    || v.current == Some(c) by {
                    if v.visited[i] == pid {
                        let m = choose|m: int| 0 <= m < children@.len() && children@[m] == c;
                        let j = before.pending.len() + (children@.len() - 1 - m);
                        assert(children@.reverse()[children@.len() - 1 - m] == c);
                        assert(v.pending[j] == c);
                    } else {
                        assert(v.visited[i] == before.visited[i]);
                        if before.visited.contains(c) {
                            let k2 = choose|k2: int| 0 <= k2 < before.visited.len() && before.visited[k2] == c;
                            assert(v.visited[k2] == c);
                        } else if before.pending.contains(c) {
                            let j = choose|j: int| 0 <= j < before.pending.len() && before.pending[j] == c;
                            assert(v.pending[j] == c);
                        } else {
                            assert(v.visited[v.visited.len() - 1] == c);
                        }
                    }
                }
                if before.visited.contains(v.root) {
                    let k2 = choose|k2: int| 0 <= k2 < before.visited.len() && before.visited[k2] == v.root;
                    assert(v.visited[k2] == v.root);
                } else if before.pending.contains(v.root) {
                    let j = choose|j: int| 0 <= j < before.pending.len() && before.pending[j] == v.root;
                    assert(v.pending[j] == v.root);
                } else {
                    assert(v.visited[v.visited.len() - 1] == v.root);
                }
            }
            *self = PidSearch {
                linux: self.linux,
                root: self.root,
                pending,
                current: None,
                found: None,
                visited: Ghost(visited),
                observed: Ghost(observed),
                edges: Ghost(edges),
            };
        }
    }

    /// The answer of the walk: the OpenConnect process found, if any.
    pub fn found(&self) -> (pid: Option<u32>)
        ensures
            pid == self@.found,
    {
        self.found
    }
}

} // verus!
