//! What a server and a client are configured with, and how a server's
//! settings are settled from its configuration file, the certificates found
//! in the data directory, and its command line.

use vstd::prelude::*;
use vstd::string::*;
use crate::text::optional_text;

verus! {

/// The directory, below the user's configuration and data directories, that
/// holds this program's files.
pub const PROGRAM_GROUP: &'static str = "rclip";

/// The host that a server binds to, and a client connects to, by default.
pub const DEFAULT_SERVER_HOST: &'static str = "127.0.0.1";

/// The port that goes with the default host.
pub const DEFAULT_SERVER_PORT: u16 = 10080;

/// The file name of the public certificate in the data directory.
pub const DEFAULT_FILENAME_DER_CERT_PUB: &'static str = "der-cert-pub.der";

/// The first of two optional values that is there.
pub open spec fn or_else<T>(first: Option<T>, second: Option<T>) -> Option<T> {
    match first {
        Some(_) => first,
        None => second,
    }
}

/// Where the server is.
#[derive(Debug, Clone, PartialEq, Eq)]
pub struct Server {
    /// Host name or address.
    pub host: Option<String>,
    /// Port number.
    pub port: Option<u16>,
}

impl Default for Server {
    /// The default host and port.
    fn default() -> (server: Server)
        ensures
            optional_text(server.host) == Some(DEFAULT_SERVER_HOST@),
            server.port == Some(DEFAULT_SERVER_PORT),
    {
        Server {
            host: Some(String::from_str(DEFAULT_SERVER_HOST)),
            port: Some(DEFAULT_SERVER_PORT),
        }
    }
}

/// Where the server's certificate and key are.
#[derive(Debug, Clone, PartialEq, Eq)]
pub struct ServerCertificate {
    /// The path of the public certificate, in DER.
    pub der_cert_pub: Option<String>,
    /// The path of the private key, in DER.
    pub der_cert_priv: Option<String>,
}

impl Default for ServerCertificate {
    /// Neither path.
    fn default() -> (certificate: ServerCertificate)
        ensures
            certificate.der_cert_pub is None,
            certificate.der_cert_priv is None,
    {
        ServerCertificate { der_cert_pub: None, der_cert_priv: None }
    }
}

/// A server's configuration.
#[derive(Debug, Clone, PartialEq, Eq)]
pub struct ServerConfig {
    /// Where to listen.
    pub server: Server,
    /// Where the certificate and the key are.
    pub certificate: ServerCertificate,
}

impl Default for ServerConfig {
    /// The default host and port, and no certificate paths.
    fn default() -> (config: ServerConfig)
        ensures
            optional_text(config.server.host) == Some(DEFAULT_SERVER_HOST@),
            config.server.port == Some(DEFAULT_SERVER_PORT),
            config.certificate.der_cert_pub is None,
            config.certificate.der_cert_priv is None,
    {
        ServerConfig { server: Server::default(), certificate: ServerCertificate::default() }
    }
}

/// Where the certificate is that a client trusts.
#[derive(Debug, Clone, PartialEq, Eq)]
pub struct ClientCertificate {
    /// The path of the server's public certificate, in DER.
    pub der_cert_pub: Option<String>,
}

impl Default for ClientCertificate {
    /// No path.
    fn default() -> (certificate: ClientCertificate)
        ensures
            certificate.der_cert_pub is None,
    {
        ClientCertificate { der_cert_pub: None }
    }
}

/// A client's configuration.
#[derive(Debug, Clone, PartialEq, Eq)]
pub struct ClientConfig {
    /// Where the server is.
    pub server: Server,
    /// Where the pinned certificate is.
    pub certificate: ClientCertificate,
}

impl Default for ClientConfig {
    /// The default host and port, and no certificate path.
    fn default() -> (config: ClientConfig)
        ensures
            optional_text(config.server.host) == Some(DEFAULT_SERVER_HOST@),
            config.server.port == Some(DEFAULT_SERVER_PORT),
            config.certificate.der_cert_pub is None,
    {
        ClientConfig { server: Server::default(), certificate: ClientCertificate::default() }
    }
}

/// What a server's command line may give.
#[derive(Debug, Clone, PartialEq, Eq)]
pub struct ServerArgs {
    /// `--host`
    pub host: Option<String>,
    /// `--port`
    pub port: Option<u16>,
    /// `--der-cert-pub`
    pub der_cert_pub: Option<String>,
    /// `--der-cert-priv`
    pub der_cert_priv: Option<String>,
}

/// What a server needs to start.
#[derive(Debug, Clone, PartialEq, Eq)]
pub struct ServerSettings {
    /// The host to bind to.
    pub host: String,
    /// The port to bind to.
    pub port: u16,
    /// The path of the private key.
    pub der_cert_priv: String,
    /// The path of the public certificate.
    pub der_cert_pub: String,
}

/// The mathematical value of [`ServerSettings`].
pub struct ServerSettingsView {
    pub host: Seq<char>,
    pub port: u16,
    pub der_cert_priv: Seq<char>,
    pub der_cert_pub: Seq<char>,
}

impl View for ServerSettings {
    type V = ServerSettingsView;

    open spec fn view(&self) -> ServerSettingsView {
        ServerSettingsView {
            host: self.host@,
            port: self.port,
            der_cert_priv: self.der_cert_priv@,
            der_cert_pub: self.der_cert_pub@,
        }
    }
}

/// What is missing for a server to start.
#[derive(Debug, Clone, Copy, PartialEq, Eq, Structural)]
pub enum SettingsError {
    /// No path of a public certificate.
    MissingPublicCertificate,
    /// No path of a private key.
    MissingPrivateKey,
    /// No host, or no port.
    MissingAddress,
}

/// The settings that a server starts with. For each of them the command
/// line decides, then the configuration; for a certificate path, what was
/// found in the data directory comes last. A missing public certificate is
/// reported before a missing private key, and that before a missing host or
/// port.
pub open spec fn settled(
    config: ServerConfig,
    found_pub: Option<String>,
    found_priv: Option<String>,
    args: ServerArgs,
) -> Result<ServerSettingsView, SettingsError> {
    let host = or_else(optional_text(args.host), optional_text(config.server.host));
    let port = or_else(args.port, config.server.port);
    let der_cert_pub = or_else(
        optional_text(args.der_cert_pub),
        or_else(optional_text(config.certificate.der_cert_pub), optional_text(found_pub)),
    );
    let der_cert_priv = or_else(
        optional_text(args.der_cert_priv),
        or_else(optional_text(config.certificate.der_cert_priv), optional_text(found_priv)),
    );
    if der_cert_pub is None {
        Err(SettingsError::MissingPublicCertificate)
    } else if der_cert_priv is None {
        Err(SettingsError::MissingPrivateKey)
    } else if host is None || port is None {
        Err(SettingsError::MissingAddress)
    } else {
        Ok(
            ServerSettingsView {
                host: host->0,
                port: port->0,
                der_cert_priv: der_cert_priv->0,
                der_cert_pub: der_cert_pub->0,
            },
        )
    }
}

/// The value of settled settings.
pub open spec fn settings_view(settings: Result<ServerSettings, SettingsError>) -> Result<
    ServerSettingsView,
    SettingsError,
> {
    match settings {
        Ok(settings) => Ok(settings@),
        Err(error) => Err(error),
    }
}

/// The first of two optional texts that is there.
fn first_text(first: Option<String>, second: Option<String>) -> (chosen: Option<String>)
    ensures
        optional_text(chosen) == or_else(optional_text(first), optional_text(second)),
{
    match first {
        Some(text) => Some(text),
        None => second,
    }
}

impl ServerConfig {
    /// Settles the settings that a server starts with from this
    /// configuration, from the certificate paths found in the data directory
    /// (`found_pub`, `found_priv`), and from the command line.
    pub fn settle(
        self,
        found_pub: Option<String>,
        found_priv: Option<String>,
        args: ServerArgs,
    ) -> (settings: Result<ServerSettings, SettingsError>)
        ensures
            settings_view(settings) == settled(self, found_pub, found_priv, args),
    {
        let host = first_text(args.host, self.server.host);
        let port = match args.port {
            Some(port) => Some(port),
            None => self.server.port,
        };
        let der_cert_pub = first_text(
            args.der_cert_pub,
            first_text(self.certificate.der_cert_pub, found_pub),
        );
        let der_cert_priv = first_text(
            args.der_cert_priv,
            first_text(self.certificate.der_cert_priv, found_priv),
        );
        let der_cert_pub = match der_cert_pub {
            Some(path) => path,
            None => {
                return Err(SettingsError::MissingPublicCertificate);
            },
        };
        let der_cert_priv = match der_cert_priv {
            Some(path) => path,
            None => {
                return Err(SettingsError::MissingPrivateKey);
            },
        };
        match (host, port) {
            (Some(host), Some(port)) => Ok(ServerSettings { host, port, der_cert_priv, der_cert_pub }),
            _ => Err(SettingsError::MissingAddress),
        }
    }
}

impl SettingsError {
    /// The line that tells the user what to provide.
    pub fn message(&self) -> (text: &'static str)
        ensures
            text@ == match self {
                SettingsError::MissingPublicCertificate => {
                    "Please provide the public certificate argument for --der-cert-pub."@
                },
                SettingsError::MissingPrivateKey => {
                    "Please provide the private certificate argument for --der-cert-priv."@
                },
                SettingsError::MissingAddress => {
                    "Server error! Some required parameters were not provided: missing certificates?"@
                },
            },
    {
        match self {
            SettingsError::MissingPublicCertificate => {
                "Please provide the public certificate argument for --der-cert-pub."
            },
            SettingsError::MissingPrivateKey => {
                "Please provide the private certificate argument for --der-cert-priv."
            },
            SettingsError::MissingAddress => {
                "Server error! Some required parameters were not provided: missing certificates?"
            },
        }
    }
}

} // verus!
