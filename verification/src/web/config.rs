//! Server settings of the SQLite-backed service.
use vstd::prelude::*;

use crate::config::{lemma_parse_bounded, parse_u16, spec_parse_unsigned, IntErrorKind, VarError};

verus! {

/// Why the server settings could not be read. A database configuration
/// error is carried as its message.
#[derive(Debug)]
pub enum CreateConfigError {
    VarError(VarError),
    InvalidVarFormat(IntErrorKind),
    MissingStaticAssetsPath,
    DB(String),
}

/// The message displayed for each error.
pub open spec fn spec_message(e: CreateConfigError) -> Seq<char> {
    match e {
        CreateConfigError::VarError(_) => "var error"@,
        CreateConfigError::InvalidVarFormat(_) => "var invalid format"@,
        CreateConfigError::MissingStaticAssetsPath => "missing static assets path"@,
        CreateConfigError::DB(m) => m@,
    }
}

impl CreateConfigError {
    /// The message displayed for this error.
    pub fn message(&self) -> (res: String)
        ensures
            res@ == spec_message(*self),
    {
        match self {
            CreateConfigError::VarError(_) => String::from_str("var error"),
            CreateConfigError::InvalidVarFormat(_) => String::from_str("var invalid format"),
            CreateConfigError::MissingStaticAssetsPath => String::from_str("missing static assets path"),
            CreateConfigError::DB(m) => m.clone(),
        }
    }
}

/// The server's own settings.
pub struct ServerSettings {
    /// The public host name of the service.
    pub host: String,
    /// The port the service listens on.
    pub port: u16,
    pub static_assets_path: String,
}

/// The server settings that `APP_SERVER__PORT` (default 3000) and
/// `APP__SERVER__STATIC_ASSETS` give, or the first thing wrong with them.
pub open spec fn spec_server_settings(
    port: Result<String, VarError>,
    static_assets: Result<String, VarError>,
) -> Result<(int, Seq<char>), CreateConfigError> {
    let p = match port {
        Ok(text) => spec_parse_unsigned(text@, u16::MAX as int),
        Err(_) => Ok(3000),
    };
    match p {
        Err(e) => Err(CreateConfigError::InvalidVarFormat(e)),
        Ok(v) => match static_assets {
            Err(_) => Err(CreateConfigError::MissingStaticAssetsPath),
            Ok(path) => Ok((v, path@)),
        },
    }
}

/// Reads the server settings from the two environment variables, as
/// `std::env::var` reported them.
pub fn server_settings(port: &Result<String, VarError>, static_assets: &Result<String, VarError>) -> (res:
    Result<ServerSettings, CreateConfigError>)
    ensures
        match spec_server_settings(*port, *static_assets) {
            Ok((p, path)) => res matches Ok(s) && s.port == p && s.static_assets_path@ == path
                && s.host@ == "emojied.net"@,
            Err(e) => res == Err::<ServerSettings, CreateConfigError>(e),
        },
{
    proof {
        if port is Ok {
            lemma_parse_bounded(port->Ok_0@, u16::MAX as int);
        }
    }
    let app_port = match port {
        Ok(text) => match parse_u16(text.as_str()) {
            Ok(v) => v,
            Err(e) => return Err(CreateConfigError::InvalidVarFormat(e)),
        },
        Err(_) => 3000,
    };
    let static_assets_path = match static_assets {
        Ok(path) => path.clone(),
        Err(_) => return Err(CreateConfigError::MissingStaticAssetsPath),
    };
    Ok(ServerSettings { host: String::from_str("emojied.net"), port: app_port, static_assets_path })
}

/// The settings of the SQLite-backed service: the server's own, and the
/// database configuration `D`.
pub struct AppConfig<D> {
    /// The public host name of the service.
    pub host: String,
    /// The port the service listens on.
    pub port: u16,
    pub database: D,
    pub static_assets_path: String,
}

impl<D> AppConfig<D> {
    /// The settings from the two server variables and the outcome of reading
    /// the database configuration (its error as a message), with the errors
    /// in this order: the port, the static assets path, the database
    /// configuration.
    pub fn from_env_values(
        port: &Result<String, VarError>,
        static_assets: &Result<String, VarError>,
        database: Result<D, String>,
    ) -> (res: Result<AppConfig<D>, CreateConfigError>)
        ensures
            match spec_server_settings(*port, *static_assets) {
                Err(e) => res == Err::<AppConfig<D>, CreateConfigError>(e),
                Ok((p, path)) => match database {
                    Ok(d) => res matches Ok(c) && c.port == p && c.static_assets_path@ == path
                        && c.host@ == "emojied.net"@ && c.database == d,
                    Err(m) => res == Err::<AppConfig<D>, CreateConfigError>(CreateConfigError::DB(m)),
                },
            },
    {
        let server = match server_settings(port, static_assets) {
            Ok(s) => s,
            Err(e) => return Err(e),
        };
        match database {
            Ok(d) => Ok(
                AppConfig {
                    host: server.host,
                    port: server.port,
                    database: d,
                    static_assets_path: server.static_assets_path,
                },
            ),
            Err(m) => Err(CreateConfigError::DB(m)),
        }
    }
}

} // verus!
