use emojied::config::{
    parse_u16, parse_usize, settings_from_env, EnvVars, Error, IntErrorKind, VarError,
};
use emojied::db::Error as DbError;
use emojied::web::config::{server_settings, CreateConfigError};
use emojied::db::{pool_outcome, tls_for_ca};
use emojied::web::config::AppConfig;

fn set(s: &str) -> Result<String, VarError> {
    Ok(s.to_string())
}

fn unset() -> Result<String, VarError> {
    Err(VarError::NotPresent)
}

fn base_vars() -> EnvVars {
    EnvVars {
        app_port: unset(),
        static_assets: set("./public"),
        pg_host: set("localhost"),
        pg_user: set("me"),
        pg_dbname: set("emojied_db"),
        pg_password: set("secret"),
        pg_password_file: unset(),
        pg_port: set("5432"),
        pg_pool_size: unset(),
        pg_ca_cert: unset(),
    }
}

#[test]
fn parses_integers_like_std() {
    assert_eq!(parse_u16("8080"), Ok(8080));
    assert_eq!(parse_u16("+7"), Ok(7));
    assert_eq!(parse_u16("0"), Ok(0));
    assert_eq!(parse_u16("65535"), Ok(65535));
    assert_eq!(parse_u16("65536"), Err(IntErrorKind::PosOverflow));
    assert_eq!(parse_u16(""), Err(IntErrorKind::Empty));
    assert_eq!(parse_u16("+"), Err(IntErrorKind::InvalidDigit));
    assert_eq!(parse_u16("-1"), Err(IntErrorKind::InvalidDigit));
    assert_eq!(parse_u16("12a"), Err(IntErrorKind::InvalidDigit));
    assert_eq!(parse_u16("99999x"), Err(IntErrorKind::PosOverflow));
    assert_eq!(parse_usize("22"), Ok(22));
    assert_eq!(parse_usize(" 22"), Err(IntErrorKind::InvalidDigit));
    for s in ["", "+", "-", "1", "+12", "007", "65535", "65536", "1x", "x1", "99999999999"] {
        let ours = parse_u16(s).map_err(|e| e.message());
        let std = s.parse::<u16>().map_err(|e| e.to_string());
        assert_eq!(ours, std, "input {:?}", s);
    }
}

#[test]
fn defaults_when_unset() {
    let s = settings_from_env(&base_vars(), None).unwrap();
    assert_eq!(s.host, "emojied.net");
    assert_eq!(s.port, 3000);
    assert_eq!(s.pg_port, 5432);
    assert_eq!(s.pool_size, 22);
    assert_eq!(s.pg_password, "secret");
    assert_eq!(s.ca_cert_path, None);
    assert!(!s.tls_required);
    assert_eq!(s.application_name, "emojied");
    assert_eq!(s.static_assets_path, "./public");
    assert_eq!(s.pg_host, "localhost");
    assert_eq!(s.pg_user, "me");
    assert_eq!(s.pg_dbname, "emojied_db");
}

#[test]
fn reads_set_values() {
    let mut vars = base_vars();
    vars.app_port = set("8080");
    vars.pg_port = set("6543");
    vars.pg_pool_size = set("5");
    vars.pg_password = set("secret");
    vars.pg_ca_cert = set("/ca.pem");
    let s = settings_from_env(&vars, None).unwrap();
    assert_eq!(s.port, 8080);
    assert_eq!(s.pg_port, 6543);
    assert_eq!(s.pool_size, 5);
    assert_eq!(s.pg_password, "secret");
    assert_eq!(s.ca_cert_path.as_deref(), Some("/ca.pem"));
    assert!(s.tls_required);
}

#[test]
fn database_port_and_password_are_required() {
    let mut vars = base_vars();
    vars.pg_port = unset();
    assert_eq!(settings_from_env(&vars, None).err(), Some(Error::VarError(VarError::NotPresent)));
    let mut vars = base_vars();
    vars.pg_password = unset();
    assert_eq!(settings_from_env(&vars, None).err(), Some(Error::VarError(VarError::NotPresent)));
    vars.pg_password = Err(VarError::NotUnicode);
    assert_eq!(settings_from_env(&vars, None).err(), Some(Error::VarError(VarError::NotUnicode)));
    let mut vars = base_vars();
    vars.pg_password = unset();
    vars.pg_port = unset();
    vars.pg_host = unset();
    assert_eq!(settings_from_env(&vars, None).err(), Some(Error::VarError(VarError::NotPresent)));
}

#[test]
fn password_from_file() {
    let mut vars = base_vars();
    vars.pg_password = unset();
    vars.pg_password_file = set("/run/secret");
    let s = settings_from_env(&vars, Some(b"hunter2\n".to_vec())).unwrap();
    assert_eq!(s.pg_password, "hunter2");
    assert_eq!(
        settings_from_env(&vars, Some(b"hunter2".to_vec())).err(),
        Some(Error::InvalidDBPasswordFile)
    );
    assert_eq!(
        settings_from_env(&vars, Some(vec![0xff, b'\n'])).err(),
        Some(Error::InvalidDBPasswordFile)
    );
    assert_eq!(settings_from_env(&vars, None).err(), Some(Error::InvalidDBPasswordFile));
}

#[test]
fn password_variable_wins_over_file() {
    let mut vars = base_vars();
    vars.pg_password = set("direct");
    vars.pg_password_file = set("/run/secret");
    let s = settings_from_env(&vars, None).unwrap();
    assert_eq!(s.pg_password, "direct");
}

#[test]
fn errors_in_order() {
    let mut vars = base_vars();
    vars.app_port = set("port");
    vars.static_assets = unset();
    assert_eq!(
        settings_from_env(&vars, None).err(),
        Some(Error::InvalidVarFormat(IntErrorKind::InvalidDigit))
    );
    vars.app_port = unset();
    assert_eq!(settings_from_env(&vars, None).err(), Some(Error::MissingStaticAssetsPath));
    let mut vars = base_vars();
    vars.pg_user = Err(VarError::NotUnicode);
    vars.pg_port = set("x");
    assert_eq!(settings_from_env(&vars, None).err(), Some(Error::VarError(VarError::NotUnicode)));
    let mut vars = base_vars();
    vars.pg_pool_size = set("");
    assert_eq!(
        settings_from_env(&vars, None).err(),
        Some(Error::InvalidVarFormat(IntErrorKind::Empty))
    );
}

#[test]
fn error_messages() {
    assert_eq!(
        Error::VarError(VarError::NotPresent).message(),
        "An environment variable is required but is not present"
    );
    assert_eq!(
        Error::InvalidVarFormat(IntErrorKind::PosOverflow).message(),
        "number too large to fit in target type: Unable to parse value to integer"
    );
    assert_eq!(Error::InvalidDBPasswordFile.message(), "Unable to read DB password file");
    let e: Error = VarError::NotUnicode.into();
    assert_eq!(e, Error::VarError(VarError::NotUnicode));
    let e: Error = IntErrorKind::Empty.into();
    assert_eq!(e, Error::InvalidVarFormat(IntErrorKind::Empty));
}

#[test]
fn server_settings_defaults_and_errors() {
    let s = server_settings(&unset(), &set("/assets")).unwrap();
    assert_eq!(s.port, 3000);
    assert_eq!(s.host, "emojied.net");
    assert_eq!(s.static_assets_path, "/assets");
    let s = server_settings(&set("9000"), &set("/assets")).unwrap();
    assert_eq!(s.port, 9000);
    assert!(matches!(
        server_settings(&set("99999"), &unset()),
        Err(CreateConfigError::InvalidVarFormat(IntErrorKind::PosOverflow))
    ));
    assert!(matches!(
        server_settings(&unset(), &unset()),
        Err(CreateConfigError::MissingStaticAssetsPath)
    ));
    assert_eq!(CreateConfigError::MissingStaticAssetsPath.message(), "missing static assets path");
    assert_eq!(CreateConfigError::DB("boom".to_string()).message(), "boom");
}

#[test]
fn db_error_messages() {
    assert_eq!(
        DbError::PoolError("timeout".to_string()).message(),
        "Couldn't get a client from the pool: timeout"
    );
    assert_eq!(DbError::InvalidCACert.message(), "Invalid PEM file");
    assert_eq!(DbError::FailedToBuildPool.message(), "Failed to build a database pool");
}

#[test]
fn tls_follows_the_certificate() {
    assert!(matches!(tls_for_ca(None), Ok(None)));
    assert!(matches!(
        tls_for_ca(Some(Err("No such file".to_string()))),
        Err(DbError::CACertFileError(ref m)) if m == "No such file"
    ));
    assert!(matches!(
        tls_for_ca(Some(Ok(b"not a certificate".to_vec()))),
        Err(DbError::InvalidCACert)
    ));
    assert_eq!(pool_outcome(Some(7)).unwrap(), 7);
    assert!(matches!(pool_outcome::<u8>(None), Err(DbError::FailedToBuildPool)));
}

#[test]
fn web_config_with_database() {
    let c = AppConfig::from_env_values(&unset(), &set("/assets"), Ok(5u8)).unwrap();
    assert_eq!(c.port, 3000);
    assert_eq!(c.database, 5);
    assert_eq!(c.host, "emojied.net");
    assert!(matches!(
        AppConfig::<u8>::from_env_values(&unset(), &set("/assets"), Err("bad db".to_string())),
        Err(CreateConfigError::DB(ref m)) if m == "bad db"
    ));
    assert!(matches!(
        AppConfig::<u8>::from_env_values(&unset(), &unset(), Err("bad db".to_string())),
        Err(CreateConfigError::MissingStaticAssetsPath)
    ));
}
