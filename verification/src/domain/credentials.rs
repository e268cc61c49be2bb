use vstd::prelude::*;
use crate::domain::secret::Password;
use crate::text::{
    any_white_space, chars_of, has_white_space, law_trim_idempotent, string_from_chars, trim,
    trim_chars,
};

verus! {

/// The VPN products whose protocols OpenConnect speaks.
#[derive(Clone, Copy, Debug, PartialEq, Eq, Structural)]
pub enum VpnProtocol {
    AnyConnect,
    CiscoSecure,
    Ocserv,
    PanGp,
    PrismaAccess,
    Pulse,
    Ivanti,
    Juniper,
    F5,
    Fortinet,
    Array,
}

impl Default for VpnProtocol {
    fn default() -> (protocol: Self)
        ensures
            protocol == VpnProtocol::AnyConnect,
    {
        VpnProtocol::AnyConnect
    }
}

/// The name shown for each product.
pub open spec fn protocol_label(protocol: VpnProtocol) -> Seq<char> {
    match protocol {
        VpnProtocol::AnyConnect => "Cisco AnyConnect / OpenConnect"@,
        VpnProtocol::CiscoSecure => "Cisco Secure Client (AnyConnect)"@,
        VpnProtocol::Ocserv => "OpenConnect Server (ocserv)"@,
        VpnProtocol::PanGp => "Palo Alto Networks GlobalProtect"@,
        VpnProtocol::PrismaAccess => "Prisma Access (GlobalProtect)"@,
        VpnProtocol::Pulse => "Pulse Secure"@,
        VpnProtocol::Ivanti => "Ivanti Connect Secure"@,
        VpnProtocol::Juniper => "Juniper Network Connect"@,
        VpnProtocol::F5 => "F5 BIG-IP"@,
        VpnProtocol::Fortinet => "Fortinet FortiGate"@,
        VpnProtocol::Array => "Array Networks AG SSL VPN"@,
    }
}

/// The value that OpenConnect's `--protocol` option takes for each product.
pub open spec fn protocol_openconnect_name(protocol: VpnProtocol) -> Seq<char> {
    match protocol {
        VpnProtocol::AnyConnect | VpnProtocol::CiscoSecure | VpnProtocol::Ocserv => "anyconnect"@,
        VpnProtocol::PanGp | VpnProtocol::PrismaAccess => "gp"@,
        VpnProtocol::Pulse | VpnProtocol::Ivanti => "pulse"@,
        VpnProtocol::Juniper => "nc"@,
        VpnProtocol::F5 => "f5"@,
        VpnProtocol::Fortinet => "fortinet"@,
        VpnProtocol::Array => "array"@,
    }
}

impl VpnProtocol {
    pub const ALL: [VpnProtocol; 11] = [
        VpnProtocol::AnyConnect,
        VpnProtocol::CiscoSecure,
        VpnProtocol::Ocserv,
        VpnProtocol::PanGp,
        VpnProtocol::PrismaAccess,
        VpnProtocol::Pulse,
        VpnProtocol::Ivanti,
        VpnProtocol::Juniper,
        VpnProtocol::F5,
        VpnProtocol::Fortinet,
        VpnProtocol::Array,
    ];

    pub fn label(self) -> (label: &'static str)
        ensures
            label@ == protocol_label(self),
    {
        match self {
            VpnProtocol::AnyConnect => "Cisco AnyConnect / OpenConnect",
            VpnProtocol::CiscoSecure => "Cisco Secure Client (AnyConnect)",
            VpnProtocol::Ocserv => "OpenConnect Server (ocserv)",
            VpnProtocol::PanGp => "Palo Alto Networks GlobalProtect",
            VpnProtocol::PrismaAccess => "Prisma Access (GlobalProtect)",
            VpnProtocol::Pulse => "Pulse Secure",
            VpnProtocol::Ivanti => "Ivanti Connect Secure",
            VpnProtocol::Juniper => "Juniper Network Connect",
            VpnProtocol::F5 => "F5 BIG-IP",
            VpnProtocol::Fortinet => "Fortinet FortiGate",
            VpnProtocol::Array => "Array Networks AG SSL VPN",
        }
    }

    pub fn openconnect_name(self) -> (name: &'static str)
        ensures
            name@ == protocol_openconnect_name(self),
    {
        match self {
            VpnProtocol::AnyConnect | VpnProtocol::CiscoSecure | VpnProtocol::Ocserv => "anyconnect",
            VpnProtocol::PanGp | VpnProtocol::PrismaAccess => "gp",
            VpnProtocol::Pulse | VpnProtocol::Ivanti => "pulse",
            VpnProtocol::Juniper => "nc",
            VpnProtocol::F5 => "f5",
            VpnProtocol::Fortinet => "fortinet",
            VpnProtocol::Array => "array",
        }
    }
}

/// `VpnProtocol::ALL` lists every protocol, each once.
pub proof fn law_all_protocols_listed(protocol: VpnProtocol)
    ensures
        VpnProtocol::ALL@.len() == 11,
        VpnProtocol::ALL@.contains(protocol),
        VpnProtocol::ALL@.no_duplicates(),
{
    let all = VpnProtocol::ALL@;
    assert(all =~= seq![
        VpnProtocol::AnyConnect,
        VpnProtocol::CiscoSecure,
        VpnProtocol::Ocserv,
        VpnProtocol::PanGp,
        VpnProtocol::PrismaAccess,
        VpnProtocol::Pulse,
        VpnProtocol::Ivanti,
        VpnProtocol::Juniper,
        VpnProtocol::F5,
        VpnProtocol::Fortinet,
        VpnProtocol::Array,
    ]);
    let index: int = match protocol {
        VpnProtocol::AnyConnect => 0,
        VpnProtocol::CiscoSecure => 1,
        VpnProtocol::Ocserv => 2,
        VpnProtocol::PanGp => 3,
        VpnProtocol::PrismaAccess => 4,
        VpnProtocol::Pulse => 5,
        VpnProtocol::Ivanti => 6,
        VpnProtocol::Juniper => 7,
        VpnProtocol::F5 => 8,
        VpnProtocol::Fortinet => 9,
        VpnProtocol::Array => 10,
    };
    assert(all[index] == protocol);
}

/// Why the form's input was refused.
#[derive(Clone, Copy, Debug, PartialEq, Eq, Structural)]
pub enum CredentialError {
    EmptyServer,
    InvalidServer,
    EmptyUsername,
    EmptyPassword,
}

/// The message shown for each refusal.
pub open spec fn credential_error_message(error: CredentialError) -> Seq<char> {
    match error {
        CredentialError::EmptyServer => "Informe o servidor VPN."@,
        CredentialError::InvalidServer => "Informe um servidor VPN sem espaços."@,
        CredentialError::EmptyUsername => "Informe o usuário."@,
        CredentialError::EmptyPassword => "Informe a senha."@,
    }
}

impl CredentialError {
    /// The text that the error displays.
    pub fn message(self) -> (message: &'static str)
        ensures
            message@ == credential_error_message(self),
    {
        match self {
            CredentialError::EmptyServer => "Informe o servidor VPN.",
            CredentialError::InvalidServer => "Informe um servidor VPN sem espaços.",
            CredentialError::EmptyUsername => "Informe o usuário.",
            CredentialError::EmptyPassword => "Informe a senha.",
        }
    }
}

/// What `ServerAddress::parse` makes of the text typed by the user: the
/// trimmed text, unless it is empty or holds whitespace.
pub open spec fn server_from_text(value: Seq<char>) -> Result<Seq<char>, CredentialError> {
    let trimmed = trim(value);
    if trimmed.len() == 0 {
        Err(CredentialError::EmptyServer)
    } else if has_white_space(trimmed) {
        Err(CredentialError::InvalidServer)
    } else {
        Ok(trimmed)
    }
}

/// What `Username::parse` makes of the text typed by the user: the trimmed
/// text, unless it is empty.
pub open spec fn username_from_text(value: Seq<char>) -> Result<Seq<char>, CredentialError> {
    let trimmed = trim(value);
    if trimmed.len() == 0 {
        Err(CredentialError::EmptyUsername)
    } else {
        Ok(trimmed)
    }
}

/// An accepted server address is non-empty, holds no whitespace, and
/// parses to itself when given again.
pub proof fn law_server_address_canonical(value: Seq<char>, server: Seq<char>)
    requires
        server_from_text(value) == Ok::<Seq<char>, CredentialError>(server),
    ensures
        server.len() > 0,
        !has_white_space(server),
        server_from_text(server) == Ok::<Seq<char>, CredentialError>(server),
{
    law_trim_idempotent(value);
}

/// An accepted user name is non-empty and parses to itself when given again.
pub proof fn law_username_canonical(value: Seq<char>, name: Seq<char>)
    requires
        username_from_text(value) == Ok::<Seq<char>, CredentialError>(name),
    ensures
        name.len() > 0,
        username_from_text(name) == Ok::<Seq<char>, CredentialError>(name),
{
    law_trim_idempotent(value);
}

/// Every non-empty text without whitespace, once trimmed, is a server
/// address, taken unchanged (ports, paths and schemes included); an empty
/// text is refused as empty, one with inner whitespace as invalid.
pub proof fn law_server_accepts_any_text_without_spaces(value: Seq<char>)
    ensures
        trim(value).len() > 0 && !has_white_space(trim(value)) ==> server_from_text(value) == Ok::<
            Seq<char>,
            CredentialError,
        >(trim(value)),
        trim(value).len() == 0 ==> server_from_text(value) == Err::<Seq<char>, CredentialError>(
            CredentialError::EmptyServer,
        ),
        trim(value).len() > 0 && has_white_space(trim(value)) ==> server_from_text(value) == Err::<
            Seq<char>,
            CredentialError,
        >(CredentialError::InvalidServer),
{
}

/// Every non-empty trimmed text is a user name, taken unchanged.
pub proof fn law_username_accepts_any_non_empty_text(value: Seq<char>)
    ensures
        trim(value).len() > 0 ==> username_from_text(value) == Ok::<Seq<char>, CredentialError>(
            trim(value),
        ),
        trim(value).len() == 0 ==> username_from_text(value) == Err::<Seq<char>, CredentialError>(
            CredentialError::EmptyUsername,
        ),
{
}

/// A VPN server address: non-empty, no whitespace.
#[derive(Clone, Debug, PartialEq, Eq)]
pub struct ServerAddress(String);

impl View for ServerAddress {
    type V = Seq<char>;

    closed spec fn view(&self) -> Seq<char> {
        self.0@
    }
}

impl ServerAddress {
    pub fn parse(value: &str) -> (parsed: Result<Self, CredentialError>)
        ensures
            match parsed {
                Ok(server) => server_from_text(value@) == Ok::<Seq<char>, CredentialError>(server@),
                Err(error) => server_from_text(value@) == Err::<Seq<char>, CredentialError>(error),
            },
    {
        let chars = chars_of(value);
        let trimmed = trim_chars(chars.as_slice());
        if trimmed.len() == 0 {
            Err(CredentialError::EmptyServer)
        } else if any_white_space(trimmed.as_slice()) {
            Err(CredentialError::InvalidServer)
        } else {
            Ok(ServerAddress(string_from_chars(trimmed.as_slice())))
        }
    }

    pub fn as_str(&self) -> (text: &str)
        ensures
            text@ == self@,
    {
        self.0.as_str()
    }
}

/// A VPN user name: non-empty, without surrounding whitespace.
#[derive(Clone, Debug, PartialEq, Eq)]
pub struct Username(String);

impl View for Username {
    type V = Seq<char>;

    closed spec fn view(&self) -> Seq<char> {
        self.0@
    }
}

impl Username {
    pub fn parse(value: &str) -> (parsed: Result<Self, CredentialError>)
        ensures
            match parsed {
                Ok(name) => username_from_text(value@) == Ok::<Seq<char>, CredentialError>(name@),
                Err(error) => username_from_text(value@) == Err::<Seq<char>, CredentialError>(error),
            },
    {
        let chars = chars_of(value);
        let trimmed = trim_chars(chars.as_slice());
        if trimmed.len() == 0 {
            Err(CredentialError::EmptyUsername)
        } else {
            Ok(Username(string_from_chars(trimmed.as_slice())))
        }
    }

    pub fn as_str(&self) -> (text: &str)
        ensures
            text@ == self@,
    {
        self.0.as_str()
    }
}

/// Everything a connection attempt needs; the password is never empty.
pub struct Credentials {
    server: ServerAddress,
    protocol: VpnProtocol,
    username: Username,
    password: Password,
}

impl Credentials {
    pub closed spec fn server(self) -> ServerAddress {
        self.server
    }

    pub closed spec fn protocol(self) -> VpnProtocol {
        self.protocol
    }

    pub closed spec fn username(self) -> Username {
        self.username
    }

    pub closed spec fn password(self) -> Password {
        self.password
    }

    pub fn new(
        server: ServerAddress,
        protocol: VpnProtocol,
        username: Username,
        password: Password,
    ) -> (made: Result<Self, CredentialError>)
        ensures
            made is Err <==> password@.len() == 0,
            made is Err ==> made == Err::<Self, CredentialError>(CredentialError::EmptyPassword),
            made matches Ok(credentials) ==> {
                &&& credentials.server() == server
                &&& credentials.protocol() == protocol
                &&& credentials.username() == username
                &&& credentials.password() == password
            },
    {
        if password.is_empty() {
            return Err(CredentialError::EmptyPassword);
        }
        Ok(Credentials { server, protocol, username, password })
    }

    pub fn into_parts(self) -> (parts: (ServerAddress, VpnProtocol, Username, Password))
        ensures
            parts.0 == self.server(),
            parts.1 == self.protocol(),
            parts.2 == self.username(),
            parts.3 == self.password(),
    {
        (self.server, self.protocol, self.username, self.password)
    }
}

} // verus!
