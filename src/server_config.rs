//! Server configuration: the address a TCP listener binds and whether it
//! serves over a secure transport.

use vstd::prelude::*;
use vstd::string::StringExecFns;
use yaml_rust2::Yaml;

use crate::document::{
    bool_or, boolean_or, child, first_document, first_document_of, port_or, port_value, str_or,
    string_or, yaml_child, yaml_view, LoadError, NodeView,
};
use crate::text::{decimal, decimal_text};

verus! {

const DEFAULT_PORT: u16 = 23339;

const DEFAULT_HOST: &'static str = "localhost";

/// Where and how the server listens.
#[derive(Debug)]
pub struct ServerConfig {
    host: String,
    port: u16,
    secure: bool,
}

/// The server settings: bind host, bind port and transport security.
pub struct ServerView {
    pub host: Seq<char>,
    pub port: u16,
    pub secure: bool,
}

impl View for ServerConfig {
    type V = ServerView;

    closed spec fn view(&self) -> ServerView {
        ServerView { host: self.host@, port: self.port, secure: self.secure }
    }
}

/// The server settings of the section `run_env` of `doc`, each with its
/// default where the document lacks it.
pub open spec fn server_config_of(doc: NodeView, run_env: Seq<char>) -> ServerView {
    let server = child(child(doc, run_env), "server"@);
    ServerView {
        host: str_or(child(server, "host"@), "localhost"@),
        port: port_value(child(server, "port"@), 23339),
        secure: bool_or(child(server, "secure"@), true),
    }
}

/// The server settings that the first document of `text` gives.
pub open spec fn server_config_from_text(text: Seq<char>, run_env: Seq<char>) -> Result<
    ServerView,
    LoadError,
> {
    match first_document_of(text) {
        Ok(doc) => Ok(server_config_of(doc, run_env)),
        Err(e) => Err(e),
    }
}

/// The view of a construction's outcome.
pub open spec fn server_config_view(r: Result<ServerConfig, LoadError>) -> Result<
    ServerView,
    LoadError,
> {
    match r {
        Ok(c) => Ok(c@),
        Err(e) => Err(e),
    }
}

/// The listener address `{host}:{port}`.
pub open spec fn tcp_listener_of(server: ServerView) -> Seq<char> {
    server.host + ":"@ + decimal(server.port as nat)
}

/// Loading the server settings from a text and loading them from that
/// text's first document (as a file loader hands it over) give the same
/// settings.
pub proof fn lemma_server_text_and_document_agree(text: Seq<char>, doc: NodeView, run_env: Seq<char>)
    requires
        first_document_of(text) == Ok::<NodeView, LoadError>(doc),
    ensures
        server_config_from_text(text, run_env) == Ok::<ServerView, LoadError>(
            server_config_of(doc, run_env),
        ),
{
}

impl ServerConfig {
    /// Reads the settings of the section `run_env` from a parsed document.
    /// The name is used as it is given: a missing section leaves every
    /// setting at its default.
    pub fn from_yaml(run_env: String, doc: &Yaml) -> (r: Self)
        ensures
            r@ == server_config_of(yaml_view(*doc), run_env@),
    {
        let server = yaml_child(&yaml_child(doc, run_env.as_str()), "server");
        ServerConfig {
            host: string_or(&yaml_child(&server, "host"), DEFAULT_HOST),
            port: port_or(&yaml_child(&server, "port"), DEFAULT_PORT),
            secure: boolean_or(&yaml_child(&server, "secure"), true),
        }
    }

    /// Reads the settings of the section `run_env` from the first document
    /// of `config_text`.
    pub fn new(run_env: String, config_text: &str) -> (r: Result<Self, LoadError>)
        ensures
            server_config_view(r) == server_config_from_text(config_text@, run_env@),
    {
        match first_document(config_text) {
            Ok(doc) => Ok(Self::from_yaml(run_env, &doc)),
            Err(e) => Err(e),
        }
    }

    /// The address to bind, `{host}:{port}`.
    pub fn get_tcp_listener(&self) -> (r: String)
        ensures
            r@ == tcp_listener_of(self@),
    {
        let port = decimal_text(self.port);
        let address = self.host.clone().concat(":").concat(port.as_str());
        assert(address@ =~= tcp_listener_of(self@));
        address
    }

    pub fn is_secure(&self) -> (r: bool)
        ensures
            r == self@.secure,
    {
        self.secure
    }

    pub fn get_port(&self) -> (r: u16)
        ensures
            r == self@.port,
    {
        self.port
    }

    pub fn get_host(&self) -> (r: String)
        ensures
            r@ == self@.host,
    {
        self.host.clone()
    }
}

/// Reads the server settings of the section `current_env` from the first
/// document of `config_text`.
pub fn get_srv_config(current_env: String, config_text: &str) -> (r: Result<ServerConfig, LoadError>)
    ensures
        server_config_view(r) == server_config_from_text(config_text@, current_env@),
{
    ServerConfig::new(current_env, config_text)
}

} // verus!
