//! The service's settings, as read from its environment variables.
use vstd::prelude::*;
use vstd::utf8::{decode_utf8, valid_utf8};

use crate::text::{concat, decimal, digit_char, spec_strip_suffix, strip_suffix, to_chars};

verus! {

/// Why an environment variable could not be read.
#[derive(Debug, Clone, Copy, PartialEq, Eq, Structural)]
pub enum VarError {
    NotPresent,
    NotUnicode,
}

/// Why a text is not an unsigned integer of the wanted width (the kinds of
/// `std::num::ParseIntError` that unsigned parsing can give).
#[derive(Debug, Clone, Copy, PartialEq, Eq, Structural)]
pub enum IntErrorKind {
    Empty,
    InvalidDigit,
    PosOverflow,
}

/// Whether `c` is an ASCII decimal digit.
pub open spec fn is_digit(c: char) -> bool {
    ('0' as int) <= (c as int) <= ('9' as int)
}

/// The value of an ASCII decimal digit.
pub open spec fn digit_value(c: char) -> int {
    (c as int) - ('0' as int)
}

/// Reads decimal digits left to right onto `acc`; the first character that
/// is not a digit, or the first step past `max`, decides the error.
pub open spec fn scan_decimal(s: Seq<char>, acc: int, max: int) -> Result<int, IntErrorKind>
    decreases s.len(),
{
    if s.len() == 0 {
        Ok(acc)
    } else if !is_digit(s[0]) {
        Err(IntErrorKind::InvalidDigit)
    } else if acc * 10 + digit_value(s[0]) > max {
        Err(IntErrorKind::PosOverflow)
    } else {
        scan_decimal(s.drop_first(), acc * 10 + digit_value(s[0]), max)
    }
}

/// How `str::parse` reads an unsigned integer no greater than `max`: an
/// optional leading `+`, then decimal digits only.
pub open spec fn spec_parse_unsigned(s: Seq<char>, max: int) -> Result<int, IntErrorKind> {
    if s.len() == 0 {
        Err(IntErrorKind::Empty)
    } else if s.len() == 1 && (s[0] == '+' || s[0] == '-') {
        Err(IntErrorKind::InvalidDigit)
    } else if s[0] == '+' {
        scan_decimal(s.drop_first(), 0, max)
    } else {
        scan_decimal(s, 0, max)
    }
}

/// Reading an unsigned integer never yields more than `max`.
proof fn lemma_scan_bounded(s: Seq<char>, acc: int, max: int)
    requires
        0 <= acc <= max,
    ensures
        scan_decimal(s, acc, max) matches Ok(v) ==> 0 <= v <= max,
    decreases s.len(),
{
    if s.len() > 0 && is_digit(s[0]) && acc * 10 + digit_value(s[0]) <= max {
        lemma_scan_bounded(s.drop_first(), acc * 10 + digit_value(s[0]), max);
    }
}

/// Reading an unsigned integer never yields more than `max`.
pub proof fn lemma_parse_bounded(s: Seq<char>, max: int)
    requires
        0 <= max,
    ensures
        spec_parse_unsigned(s, max) matches Ok(v) ==> 0 <= v <= max,
{
    lemma_scan_bounded(s, 0, max);
    lemma_scan_bounded(s.drop_first(), 0, max);
}

/// Reading one more character continues from where the reading of `s` left off.
proof fn lemma_scan_push(s: Seq<char>, c: char, acc: int, max: int)
    ensures
        scan_decimal(s.push(c), acc, max) == match scan_decimal(s, acc, max) {
            Ok(v) => scan_decimal(seq![c], v, max),
            Err(e) => Err(e),
        },
    decreases s.len(),
{
    if s.len() > 0 {
        assert(s.push(c).drop_first() =~= s.drop_first().push(c));
        assert(s.push(c)[0] == s[0]);
        if is_digit(s[0]) && acc * 10 + digit_value(s[0]) <= max {
            lemma_scan_push(s.drop_first(), c, acc * 10 + digit_value(s[0]), max);
        }
    } else {
        assert(s.push(c) =~= seq![c]);
    }
}

/// A digit character is a digit, of its own value.
proof fn lemma_digit_char(d: int)
    requires
        0 <= d <= 9,
    ensures
        is_digit(digit_char(d)),
        digit_value(digit_char(d)) == d,
        digit_char(d) != '+' && digit_char(d) != '-',
{
}

/// The digits of `n` read back as `n`.
proof fn lemma_scan_decimal(n: nat, max: int)
    requires
        n <= max,
    ensures
        scan_decimal(decimal(n), 0, max) == Ok::<int, IntErrorKind>(n as int),
        decimal(n).len() > 0,
        is_digit(decimal(n)[0]),
    decreases n,
{
    if n < 10 {
        lemma_digit_char(n as int);
        assert(seq![digit_char(n as int)].drop_first() =~= Seq::<char>::empty());
        assert(scan_decimal(Seq::<char>::empty(), n as int, max) == Ok::<int, IntErrorKind>(n as int));
    } else {
        let d = digit_char((n % 10) as int);
        lemma_digit_char((n % 10) as int);
        lemma_scan_decimal(n / 10, max);
        lemma_scan_push(decimal(n / 10), d, 0, max);
        assert(seq![d].drop_first() =~= Seq::<char>::empty());
        assert((n / 10) as int * 10 + (n % 10) as int == n);
        assert(scan_decimal(Seq::<char>::empty(), n as int, max) == Ok::<int, IntErrorKind>(n as int));
        assert(scan_decimal(seq![d], (n / 10) as int, max) == Ok::<int, IntErrorKind>(n as int));
        assert(decimal(n) == decimal(n / 10).push(d));
        assert(decimal(n)[0] == decimal(n / 10)[0]);
    }
}

/// A number written in decimal is read back as that number, by the same
/// rules as `str::parse` (so a port or pool size that is written out is the
/// one that the settings hold).
pub proof fn lemma_parse_reads_decimal(n: nat, max: int)
    requires
        n <= max,
    ensures
        spec_parse_unsigned(decimal(n), max) == Ok::<int, IntErrorKind>(n as int),
{
    lemma_scan_decimal(n, max);
    let d = decimal(n);
    assert(d[0] != '+' && d[0] != '-');
}

/// The unsigned integer that `s` spells, if it is no greater than `max`.
fn parse_unsigned(s: &str, max: u64) -> (res: Result<u64, IntErrorKind>)
    ensures
        match spec_parse_unsigned(s@, max as int) {
            Ok(v) => res == Ok::<u64, IntErrorKind>(v as u64),
            Err(e) => res == Err::<u64, IntErrorKind>(e),
        },
        res matches Ok(v) ==> v <= max,
{
    let cs = to_chars(s);
    if cs.len() == 0 {
        return Err(IntErrorKind::Empty);
    }
    if cs.len() == 1 && (cs[0] == '+' || cs[0] == '-') {
        return Err(IntErrorKind::InvalidDigit);
    }
    let mut i: usize = if cs[0] == '+' { 1 } else { 0 };
    let ghost digits = cs@.skip(i as int);
    assert(cs@.skip(1) == cs@.drop_first());
    assert(cs@.skip(0) == cs@);
    let mut acc: u64 = 0;
    while i < cs.len()
        invariant
            i <= cs.len(),
            cs@ == s@,
            acc <= max,
            spec_parse_unsigned(s@, max as int) == scan_decimal(cs@.skip(i as int), acc as int, max as int),
        decreases cs.len() - i,
    {
        let c = cs[i];
        assert(cs@.skip(i as int)[0] == c);
        if !('0' <= c && c <= '9') {
            return Err(IntErrorKind::InvalidDigit);
        }
        let d = ((c as u32) - ('0' as u32)) as u64;
        let next = match acc.checked_mul(10) {
            Some(m) => m.checked_add(d),
            None => None,
        };
        match next {
            Some(v) => {
                if v > max {
                    return Err(IntErrorKind::PosOverflow);
                }
                assert(cs@.skip(i as int).drop_first() == cs@.skip(i + 1));
                acc = v;
            },
            None => {
                return Err(IntErrorKind::PosOverflow);
            },
        }
        i = i + 1;
    }
    assert(cs@.skip(i as int).len() == 0);
    Ok(acc)
}

/// Reads a `u16` as `str::parse::<u16>` does.
pub fn parse_u16(s: &str) -> (res: Result<u16, IntErrorKind>)
    ensures
        match spec_parse_unsigned(s@, u16::MAX as int) {
            Ok(v) => res == Ok::<u16, IntErrorKind>(v as u16),
            Err(e) => res == Err::<u16, IntErrorKind>(e),
        },
{
    proof {
        lemma_parse_bounded(s@, u16::MAX as int);
    }
    match parse_unsigned(s, 0xFFFF) {
        Ok(v) => Ok(v as u16),
        Err(e) => Err(e),
    }
}

/// Reads a `usize` as `str::parse::<usize>` does.
pub fn parse_usize(s: &str) -> (res: Result<usize, IntErrorKind>)
    ensures
        match spec_parse_unsigned(s@, usize::MAX as int) {
            Ok(v) => res == Ok::<usize, IntErrorKind>(v as usize),
            Err(e) => res == Err::<usize, IntErrorKind>(e),
        },
{
    proof {
        lemma_parse_bounded(s@, usize::MAX as int);
    }
    match parse_unsigned(s, usize::MAX as u64) {
        Ok(v) => Ok(v as usize),
        Err(e) => Err(e),
    }
}

/// The message that `std::num::ParseIntError` displays for each kind.
pub open spec fn spec_int_error_message(e: IntErrorKind) -> Seq<char> {
    match e {
        IntErrorKind::Empty => "cannot parse integer from empty string"@,
        IntErrorKind::InvalidDigit => "invalid digit found in string"@,
        IntErrorKind::PosOverflow => "number too large to fit in target type"@,
    }
}

impl IntErrorKind {
    /// The message displayed for this kind of error.
    pub fn message(&self) -> (res: String)
        ensures
            res@ == spec_int_error_message(*self),
    {
        match self {
            IntErrorKind::Empty => String::from_str("cannot parse integer from empty string"),
            IntErrorKind::InvalidDigit => String::from_str("invalid digit found in string"),
            IntErrorKind::PosOverflow => String::from_str("number too large to fit in target type"),
        }
    }
}

/// Why the settings could not be read.
#[derive(Debug, Clone, Copy, PartialEq, Eq, Structural)]
pub enum Error {
    VarError(VarError),
    InvalidVarFormat(IntErrorKind),
    MissingStaticAssetsPath,
    InvalidDBPasswordFile,
}

/// The message displayed for each error.
pub open spec fn spec_message(e: Error) -> Seq<char> {
    match e {
        Error::VarError(VarError::NotPresent) => "An environment variable is required but is not present"@,
        Error::VarError(VarError::NotUnicode) => "An environment variable is expected to be unicode, but isn't"@,
        Error::InvalidVarFormat(k) => spec_int_error_message(k) + ": Unable to parse value to integer"@,
        Error::MissingStaticAssetsPath => "Missing environment variable: `APP__STATIC_ASSETS=<PATH_TO_FILES>`"@,
        Error::InvalidDBPasswordFile => "Unable to read DB password file"@,
    }
}

impl Error {
    /// The message displayed for this error.
    pub fn message(&self) -> (res: String)
        ensures
            res@ == spec_message(*self),
    {
        match self {
            Error::VarError(VarError::NotPresent) => String::from_str(
                "An environment variable is required but is not present",
            ),
            Error::VarError(VarError::NotUnicode) => String::from_str(
                "An environment variable is expected to be unicode, but isn't",
            ),
            Error::InvalidVarFormat(k) => concat(
                k.message().as_str(),
                ": Unable to parse value to integer",
            ),
            Error::MissingStaticAssetsPath => String::from_str(
                "Missing environment variable: `APP__STATIC_ASSETS=<PATH_TO_FILES>`",
            ),
            Error::InvalidDBPasswordFile => String::from_str("Unable to read DB password file"),
        }
    }
}

impl From<VarError> for Error {
    fn from(ve: VarError) -> (res: Self)
        ensures
            res == Error::VarError(ve),
    {
        Error::VarError(ve)
    }
}

impl vstd::std_specs::convert::FromSpecImpl<VarError> for Error {
    open spec fn obeys_from_spec() -> bool {
        true
    }

    open spec fn from_spec(ve: VarError) -> Self {
        Error::VarError(ve)
    }
}

impl From<IntErrorKind> for Error {
    fn from(ne: IntErrorKind) -> (res: Self)
        ensures
            res == Error::InvalidVarFormat(ne),
    {
        Error::InvalidVarFormat(ne)
    }
}

impl vstd::std_specs::convert::FromSpecImpl<IntErrorKind> for Error {
    open spec fn obeys_from_spec() -> bool {
        true
    }

    open spec fn from_spec(ne: IntErrorKind) -> Self {
        Error::InvalidVarFormat(ne)
    }
}

/// The environment variables that the settings are read from, each as
/// `std::env::var` reported it.
pub struct EnvVars {
    /// `APP__PORT`
    pub app_port: Result<String, VarError>,
    /// `APP__STATIC_ASSETS`
    pub static_assets: Result<String, VarError>,
    /// `PG__HOST`
    pub pg_host: Result<String, VarError>,
    /// `PG__USER`
    pub pg_user: Result<String, VarError>,
    /// `PG__DBNAME`
    pub pg_dbname: Result<String, VarError>,
    /// `PG__PASSWORD`
    pub pg_password: Result<String, VarError>,
    /// `PG__PASSWORD_FILE`
    pub pg_password_file: Result<String, VarError>,
    /// `PG__PORT`
    pub pg_port: Result<String, VarError>,
    /// `PG__POOL_SIZE`
    pub pg_pool_size: Result<String, VarError>,
    /// `PG__CA_CERT`
    pub pg_ca_cert: Result<String, VarError>,
}

/// The settings of the service and of its database connection.
pub struct Settings {
    /// The public host name of the service.
    pub host: String,
    /// The port the service listens on.
    pub port: u16,
    pub static_assets_path: String,
    pub pg_host: String,
    pub pg_user: String,
    pub pg_dbname: String,
    pub pg_password: String,
    pub pg_port: u16,
    pub pool_size: usize,
    /// The CA certificate to connect with.
    pub ca_cert_path: Option<String>,
    /// Whether the database connection must use TLS: exactly when there is
    /// a CA certificate.
    pub tls_required: bool,
    /// The application name the database connection announces.
    pub application_name: String,
}

/// The characters of each field of `Settings`.
pub struct SettingsView {
    pub host: Seq<char>,
    pub port: int,
    pub static_assets_path: Seq<char>,
    pub pg_host: Seq<char>,
    pub pg_user: Seq<char>,
    pub pg_dbname: Seq<char>,
    pub pg_password: Seq<char>,
    pub pg_port: int,
    pub pool_size: int,
    pub ca_cert_path: Option<Seq<char>>,
    pub tls_required: bool,
    pub application_name: Seq<char>,
}

impl View for Settings {
    type V = SettingsView;

    open spec fn view(&self) -> SettingsView {
        SettingsView {
            host: self.host@,
            port: self.port as int,
            static_assets_path: self.static_assets_path@,
            pg_host: self.pg_host@,
            pg_user: self.pg_user@,
            pg_dbname: self.pg_dbname@,
            pg_password: self.pg_password@,
            pg_port: self.pg_port as int,
            pool_size: self.pool_size as int,
            ca_cert_path: match self.ca_cert_path {
                Some(p) => Some(p@),
                None => None,
            },
            tls_required: self.tls_required,
            application_name: self.application_name@,
        }
    }
}

/// A numeric variable: its parsed value, `default` when it is not set, the
/// parse error when it is set but is not a number no greater than `max`.
pub open spec fn spec_number_var(var: Result<String, VarError>, default: int, max: int) -> Result<int, Error> {
    match var {
        Ok(text) => match spec_parse_unsigned(text@, max) {
            Ok(v) => Ok(v),
            Err(e) => Err(Error::InvalidVarFormat(e)),
        },
        Err(_) => Ok(default),
    }
}

/// A numeric variable never holds more than `max`.
proof fn lemma_number_var_bounded(var: Result<String, VarError>, default: int, max: int)
    requires
        0 <= default <= max,
    ensures
        spec_number_var(var, default, max) matches Ok(v) ==> 0 <= v <= max,
{
    if var is Ok {
        lemma_parse_bounded(var->Ok_0@, max);
    }
}

/// A numeric variable that must be set.
pub open spec fn spec_required_number_var(var: Result<String, VarError>, max: int) -> Result<int, Error> {
    match var {
        Ok(text) => match spec_parse_unsigned(text@, max) {
            Ok(v) => Ok(v),
            Err(e) => Err(Error::InvalidVarFormat(e)),
        },
        Err(e) => Err(Error::VarError(e)),
    }
}

/// A variable that must be set.
pub open spec fn spec_required_var(var: Result<String, VarError>) -> Result<Seq<char>, Error> {
    match var {
        Ok(text) => Ok(text@),
        Err(e) => Err(Error::VarError(e)),
    }
}

/// The database password: `PG__PASSWORD` if set, else the contents of the
/// file that `PG__PASSWORD_FILE` names, which must be UTF-8 and end in a
/// newline, taken off. One of the two must be set; when neither is, the
/// error is that of `PG__PASSWORD`.
pub open spec fn spec_password(
    password: Result<String, VarError>,
    password_file: Result<String, VarError>,
    contents: Option<Seq<u8>>,
) -> Result<Seq<char>, Error> {
    match password {
        Ok(p) => Ok(p@),
        Err(e) => match password_file {
            Err(_) => Err(Error::VarError(e)),
            Ok(_) => match contents {
                None => Err(Error::InvalidDBPasswordFile),
                Some(bytes) => if valid_utf8(bytes) {
                    match spec_strip_suffix(decode_utf8(bytes), "\n"@) {
                        Some(p) => Ok(p),
                        None => Err(Error::InvalidDBPasswordFile),
                    }
                } else {
                    Err(Error::InvalidDBPasswordFile)
                },
            },
        },
    }
}

/// The settings that the environment gives, or the first thing wrong with
/// it, in this order: `APP__PORT` (default 3000), `APP__STATIC_ASSETS`,
/// `PG__HOST`, `PG__USER`, `PG__DBNAME`, the password, `PG__PORT`,
/// `PG__POOL_SIZE` (default 22). `PG__CA_CERT` is optional.
pub open spec fn spec_settings(vars: EnvVars, contents: Option<Seq<u8>>) -> Result<SettingsView, Error> {
    let port = spec_number_var(vars.app_port, 3000, u16::MAX as int);
    let host = spec_required_var(vars.pg_host);
    let user = spec_required_var(vars.pg_user);
    let dbname = spec_required_var(vars.pg_dbname);
    let password = spec_password(vars.pg_password, vars.pg_password_file, contents);
    let pg_port = spec_required_number_var(vars.pg_port, u16::MAX as int);
    let pool_size = spec_number_var(vars.pg_pool_size, 22, usize::MAX as int);
    if port is Err {
        Err(port->Err_0)
    } else if vars.static_assets is Err {
        Err(Error::MissingStaticAssetsPath)
    } else if host is Err {
        Err(host->Err_0)
    } else if user is Err {
        Err(user->Err_0)
    } else if dbname is Err {
        Err(dbname->Err_0)
    } else if password is Err {
        Err(password->Err_0)
    } else if pg_port is Err {
        Err(pg_port->Err_0)
    } else if pool_size is Err {
        Err(pool_size->Err_0)
    } else {
        Ok(
            SettingsView {
                host: "emojied.net"@,
                port: port->Ok_0,
                static_assets_path: vars.static_assets->Ok_0@,
                pg_host: host->Ok_0,
                pg_user: user->Ok_0,
                pg_dbname: dbname->Ok_0,
                pg_password: password->Ok_0,
                pg_port: pg_port->Ok_0,
                pool_size: pool_size->Ok_0,
                ca_cert_path: match vars.pg_ca_cert {
                    Ok(path) => Some(path@),
                    Err(_) => None,
                },
                tls_required: vars.pg_ca_cert is Ok,
                application_name: "emojied"@,
            },
        )
    }
}

/// A port-like variable.
fn u16_var(var: &Result<String, VarError>, default: u16) -> (res: Result<u16, Error>)
    ensures
        match spec_number_var(*var, default as int, u16::MAX as int) {
            Ok(v) => res == Ok::<u16, Error>(v as u16),
            Err(e) => res == Err::<u16, Error>(e),
        },
{
    match var {
        Ok(text) => match parse_u16(text.as_str()) {
            Ok(v) => Ok(v),
            Err(e) => Err(Error::InvalidVarFormat(e)),
        },
        Err(_) => Ok(default),
    }
}

/// A size-like variable.
fn usize_var(var: &Result<String, VarError>, default: usize) -> (res: Result<usize, Error>)
    ensures
        match spec_number_var(*var, default as int, usize::MAX as int) {
            Ok(v) => res == Ok::<usize, Error>(v as usize),
            Err(e) => res == Err::<usize, Error>(e),
        },
{
    match var {
        Ok(text) => match parse_usize(text.as_str()) {
            Ok(v) => Ok(v),
            Err(e) => Err(Error::InvalidVarFormat(e)),
        },
        Err(_) => Ok(default),
    }
}

/// A variable that must be set.
fn required_var(var: &Result<String, VarError>) -> (res: Result<String, Error>)
    ensures
        match spec_required_var(*var) {
            Ok(v) => res matches Ok(s) && s@ == v,
            Err(e) => res == Err::<String, Error>(e),
        },
{
    match var {
        Ok(text) => Ok(text.clone()),
        Err(e) => Err(Error::VarError(*e)),
    }
}

/// Trusted: `String::from_utf8` accepts exactly the UTF-8 byte sequences and
/// decodes them (std documentation; `valid_utf8` and `decode_utf8` are
/// vstd's statement of UTF-8).
#[verifier::external_body]
fn utf8_to_string(bytes: Vec<u8>) -> (res: Option<String>)
    ensures
        res is Some <==> valid_utf8(bytes@),
        res matches Some(s) ==> s@ == decode_utf8(bytes@),
{
    String::from_utf8(bytes).ok()
}

/// The database password (see `spec_password`).
fn password(vars: &EnvVars, contents: Option<Vec<u8>>) -> (res: Result<String, Error>)
    ensures
        match spec_password(
            vars.pg_password,
            vars.pg_password_file,
            match contents {
                Some(b) => Some(b@),
                None => None,
            },
        ) {
            Ok(p) => res matches Ok(s) && s@ == p,
            Err(e) => res == Err::<String, Error>(e),
        },
{
    match &vars.pg_password {
        Ok(p) => Ok(p.clone()),
        Err(e) => match &vars.pg_password_file {
            Err(_) => Err(Error::VarError(*e)),
            Ok(_) => match contents {
                None => Err(Error::InvalidDBPasswordFile),
                Some(bytes) => match utf8_to_string(bytes) {
                    None => Err(Error::InvalidDBPasswordFile),
                    Some(text) => match strip_suffix(text.as_str(), "\n") {
                        Some(p) => Ok(p),
                        None => Err(Error::InvalidDBPasswordFile),
                    },
                },
            },
        },
    }
}

/// Reads the settings from the environment variables. `password_file`
/// holds the bytes of the file that `PG__PASSWORD_FILE` names, `None` if it
/// could not be read; it is looked at only when `PG__PASSWORD` is not set
/// and `PG__PASSWORD_FILE` is.
pub fn settings_from_env(vars: &EnvVars, password_file: Option<Vec<u8>>) -> (res: Result<Settings, Error>)
    ensures
        match spec_settings(
            *vars,
            match password_file {
                Some(b) => Some(b@),
                None => None,
            },
        ) {
            Ok(v) => res matches Ok(s) && s@ == v,
            Err(e) => res matches Err(f) && f == e,
        },
        res is Ok <==> ({
            &&& (vars.app_port matches Ok(t) ==> spec_parse_unsigned(t@, 65535) is Ok)
            &&& vars.static_assets is Ok
            &&& vars.pg_host is Ok
            &&& vars.pg_user is Ok
            &&& vars.pg_dbname is Ok
            &&& spec_password(
                vars.pg_password,
                vars.pg_password_file,
                match password_file {
                    Some(b) => Some(b@),
                    None => None,
                },
            ) is Ok
            &&& (vars.pg_port matches Ok(t) && spec_parse_unsigned(t@, 65535) is Ok)
            &&& (vars.pg_pool_size matches Ok(t) ==> spec_parse_unsigned(t@, usize::MAX as int) is Ok)
        }),
        res matches Ok(s) ==> match vars.app_port {
            Ok(t) => spec_parse_unsigned(t@, 65535) == Ok::<int, IntErrorKind>(s.port as int),
            Err(_) => s.port == 3000,
        },
        res matches Ok(s) ==> (vars.pg_port matches Ok(t) && spec_parse_unsigned(t@, 65535) == Ok::<
            int,
            IntErrorKind,
        >(s.pg_port as int)),
        res matches Ok(s) ==> match vars.pg_pool_size {
            Ok(t) => spec_parse_unsigned(t@, usize::MAX as int) == Ok::<int, IntErrorKind>(
                s.pool_size as int,
            ),
            Err(_) => s.pool_size == 22,
        },
        res matches Ok(s) ==> {
            &&& s.host@ == "emojied.net"@
            &&& vars.static_assets matches Ok(a) && s.static_assets_path@ == a@
            &&& vars.pg_host matches Ok(h) && s.pg_host@ == h@
            &&& vars.pg_user matches Ok(u) && s.pg_user@ == u@
            &&& vars.pg_dbname matches Ok(d) && s.pg_dbname@ == d@
            &&& s.tls_required == (vars.pg_ca_cert is Ok)
            &&& match vars.pg_ca_cert {
                Ok(c) => s.ca_cert_path matches Some(p) && p@ == c@,
                Err(_) => s.ca_cert_path is None,
            }
        },
{
    proof {
        lemma_number_var_bounded(vars.app_port, 3000, u16::MAX as int);
        if vars.pg_port is Ok {
            lemma_parse_bounded(vars.pg_port->Ok_0@, u16::MAX as int);
        }
        lemma_number_var_bounded(vars.pg_pool_size, 22, usize::MAX as int);
    }
    let port = match u16_var(&vars.app_port, 3000) {
        Ok(p) => p,
        Err(e) => return Err(e),
    };
    let static_assets_path = match &vars.static_assets {
        Ok(p) => p.clone(),
        Err(_) => return Err(Error::MissingStaticAssetsPath),
    };
    let pg_host = match required_var(&vars.pg_host) {
        Ok(v) => v,
        Err(e) => return Err(e),
    };
    let pg_user = match required_var(&vars.pg_user) {
        Ok(v) => v,
        Err(e) => return Err(e),
    };
    let pg_dbname = match required_var(&vars.pg_dbname) {
        Ok(v) => v,
        Err(e) => return Err(e),
    };
    let pg_password = match password(vars, password_file) {
        Ok(p) => p,
        Err(e) => return Err(e),
    };
    let pg_port = match &vars.pg_port {
        Ok(text) => match parse_u16(text.as_str()) {
            Ok(p) => p,
            Err(e) => return Err(Error::InvalidVarFormat(e)),
        },
        Err(e) => return Err(Error::VarError(*e)),
    };
    let pool_size = match usize_var(&vars.pg_pool_size, 22) {
        Ok(p) => p,
        Err(e) => return Err(e),
    };
    let ca_cert_path = match &vars.pg_ca_cert {
        Ok(path) => Some(path.clone()),
        Err(_) => None,
    };
    let tls_required = ca_cert_path.is_some();
    Ok(
        Settings {
            host: String::from_str("emojied.net"),
            port,
            static_assets_path,
            pg_host,
            pg_user,
            pg_dbname,
            pg_password,
            pg_port,
            pool_size,
            ca_cert_path,
            tls_required,
            application_name: String::from_str("emojied"),
        },
    )
}

} // verus!
