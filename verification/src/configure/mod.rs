//! The settings of the file service and the addresses derived from them.

use crate::database::file_path::{join_path, path_join};
use crate::text::{push_str, u64_to_decimal, decimal};
use vstd::prelude::*;

pub mod cors;
pub mod tls;

verus! {

/// The settings of the service.
#[derive(Debug)]
pub struct ApiConfig {
    pub server: ServerConfig,
    pub fs: FileSystemConfig,
    pub db: DatabaseConfig,
    pub max_upload_bytes_size: usize,
    pub default_code_length: usize,
    pub default_expire_secs: u64,
    pub allow_manual_deletion: bool,
}

/// Where the server listens and under which names it is reached.
#[derive(Debug)]
pub struct ServerConfig {
    domain_name: String,
    public_addr: Option<String>,
    pub schema: UrlSchema,
    host: String,
    pub port: u16,
    file_tls_key_path: Option<String>,
    file_tls_cert_path: Option<String>,
}

/// The scheme of the service's URLs.
#[derive(Clone, Copy, Debug, PartialEq, Eq, Structural)]
pub enum UrlSchema {
    Http,
    Https,
}

/// Where the database keeps its files.
#[derive(Debug)]
pub struct DatabaseConfig {
    pub path_dir: String,
}

/// Where the uploaded files are kept.
#[derive(Debug)]
pub struct FileSystemConfig {
    pub base_dir: String,
}

/// The scheme's name as it appears in URLs.
pub open spec fn schema_name(s: UrlSchema) -> Seq<char> {
    match s {
        UrlSchema::Http => "http"@,
        UrlSchema::Https => "https"@,
    }
}

impl UrlSchema {
    /// The scheme's name as it appears in URLs.
    pub fn to_string(&self) -> (r: String)
        ensures
            r@ == schema_name(*self),
    {
        match self {
            UrlSchema::Http => "http".to_owned(),
            UrlSchema::Https => "https".to_owned(),
        }
    }
}

/// `{schema}://{rest}`.
pub open spec fn url_of(schema: UrlSchema, rest: Seq<char>) -> Seq<char> {
    schema_name(schema) + "://"@ + rest
}

fn url_with(schema: UrlSchema, rest: &str) -> (r: String)
    ensures
        r@ == url_of(schema, rest@),
{
    let mut r = schema.to_string();
    push_str(&mut r, "://");
    push_str(&mut r, rest);
    r
}

/// The view of the server settings.
pub struct ServerConfigView {
    pub domain_name: Seq<char>,
    pub public_addr: Option<Seq<char>>,
    pub schema: UrlSchema,
    pub host: Seq<char>,
    pub port: u16,
    pub file_tls_key_path: Option<Seq<char>>,
    pub file_tls_cert_path: Option<Seq<char>>,
}

/// The view of an optional text.
pub open spec fn opt_view(o: Option<String>) -> Option<Seq<char>> {
    match o {
        Some(s) => Some(s@),
        None => None,
    }
}

impl View for ServerConfig {
    type V = ServerConfigView;

    closed spec fn view(&self) -> ServerConfigView {
        ServerConfigView {
            domain_name: self.domain_name@,
            public_addr: opt_view(self.public_addr),
            schema: self.schema,
            host: self.host@,
            port: self.port,
            file_tls_key_path: opt_view(self.file_tls_key_path),
            file_tls_cert_path: opt_view(self.file_tls_cert_path),
        }
    }
}

fn clone_opt(o: &Option<String>) -> (r: Option<String>)
    ensures
        opt_view(r) == opt_view(*o),
{
    match o {
        Some(s) => Some(s.clone()),
        None => None,
    }
}

impl ServerConfig {
    /// Server settings from their parts.
    pub fn new(
        domain_name: String,
        public_addr: Option<String>,
        schema: UrlSchema,
        host: String,
        port: u16,
        file_tls_key_path: Option<String>,
        file_tls_cert_path: Option<String>,
    ) -> (r: ServerConfig)
        ensures
            r@ == (ServerConfigView {
                domain_name: domain_name@,
                public_addr: opt_view(public_addr),
                schema,
                host: host@,
                port,
                file_tls_key_path: opt_view(file_tls_key_path),
                file_tls_cert_path: opt_view(file_tls_cert_path),
            }),
    {
        ServerConfig { domain_name, public_addr, schema, host, port, file_tls_key_path, file_tls_cert_path }
    }

    /// The address the server listens on, as a URL:
    /// `{schema}://{host}:{port}`.
    pub fn get_http_addr(&self) -> (r: String)
        ensures
            r@ == url_of(self@.schema, self@.host + seq![':'] + decimal(self@.port as nat)),
    {
        let mut rest = self.host.clone();
        push_str(&mut rest, ":");
        let port = u64_to_decimal(self.port as u64);
        push_str(&mut rest, port.as_str());
        proof {
            reveal_strlit(":");
            assert(rest@ =~= self@.host + seq![':'] + decimal(self@.port as nat));
        }
        url_with(self.schema, rest.as_str())
    }

    /// The URL of the service's domain: `{schema}://{domain_name}`.
    pub fn get_domain_name(&self) -> (r: String)
        ensures
            r@ == url_of(self@.schema, self@.domain_name),
    {
        url_with(self.schema, self.domain_name.as_str())
    }

    /// The public address, if one is set, as a URL: `{schema}://{public_addr}`.
    pub fn get_public_addr(&self) -> (r: Option<String>)
        ensures
            match self@.public_addr {
                Some(a) => r matches Some(u) && u@ == url_of(self@.schema, a),
                None => r is None,
            },
    {
        match &self.public_addr {
            Some(a) => Some(url_with(self.schema, a.as_str())),
            None => None,
        }
    }

    /// The domain name, as it is set.
    pub fn domain_name(&self) -> (r: &str)
        ensures
            r@ == self@.domain_name,
    {
        self.domain_name.as_str()
    }

    /// The public address, as it is set.
    pub fn public_addr(&self) -> (r: Option<String>)
        ensures
            opt_view(r) == self@.public_addr,
    {
        clone_opt(&self.public_addr)
    }

    /// The TLS key file, as it is set.
    pub fn tls_key_path(&self) -> (r: Option<String>)
        ensures
            opt_view(r) == self@.file_tls_key_path,
    {
        clone_opt(&self.file_tls_key_path)
    }

    /// The TLS certificate file, as it is set.
    pub fn tls_cert_path(&self) -> (r: Option<String>)
        ensures
            opt_view(r) == self@.file_tls_cert_path,
    {
        clone_opt(&self.file_tls_cert_path)
    }

    /// The host the server binds to.
    pub fn host(&self) -> (r: &str)
        ensures
            r@ == self@.host,
    {
        self.host.as_str()
    }

    /// The TLS key and certificate files, where both are set.
    pub fn tls_paths(&self) -> (r: Result<(String, String), String>)
        ensures
            match (self@.file_tls_key_path, self@.file_tls_cert_path) {
                (Some(k), Some(c)) => r matches Ok((rk, rc)) && rk@ == k && rc@ == c,
                (None, _) => r matches Err(m)
                    && m@ == "The `file_tls_key_path` setting should be configured in the settings file."@,
                (Some(_), None) => r matches Err(m)
                    && m@ == "The `file_tls_cert_path` setting should be configured in the settings file."@,
            },
    {
        let key = match &self.file_tls_key_path {
            Some(k) => k.clone(),
            None => {
                return Err(
                    "The `file_tls_key_path` setting should be configured in the settings file.".to_owned(),
                )
            },
        };
        let cert = match &self.file_tls_cert_path {
            Some(c) => c.clone(),
            None => {
                return Err(
                    "The `file_tls_cert_path` setting should be configured in the settings file.".to_owned(),
                )
            },
        };
        Ok((key, cert))
    }

    /// A copy of the settings.
    pub fn duplicate(&self) -> (r: ServerConfig)
        ensures
            r@ == self@,
    {
        ServerConfig {
            domain_name: self.domain_name.clone(),
            public_addr: clone_opt(&self.public_addr),
            schema: self.schema,
            host: self.host.clone(),
            port: self.port,
            file_tls_key_path: clone_opt(&self.file_tls_key_path),
            file_tls_cert_path: clone_opt(&self.file_tls_cert_path),
        }
    }
}

/// The settings file to read: the one given, or `base.toml` in the default
/// settings directory.
pub fn get_basic_settings_path(file_src: Option<String>, default_dir: &str) -> (r: String)
    ensures
        match file_src {
            Some(p) => r@ == p@,
            None => r@ == path_join(default_dir@, "base.toml"@),
        },
{
    match file_src {
        Some(p) => p,
        None => join_path(default_dir, "base.toml"),
    }
}

} // verus!
