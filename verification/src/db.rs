//! Errors of the database connection layer.
use vstd::prelude::*;

use native_tls::{Certificate, TlsConnector};

use crate::text::concat;

verus! {

/// Why a database connection could not be had. Messages of outside errors
/// are carried as text.
#[derive(Debug)]
pub enum Error {
    PoolError(String),
    CACertFileError(String),
    InvalidCACert,
    FailedToBuildTlsConnector,
    FailedToBuildPool,
}

/// The human-readable message of an error.
pub open spec fn spec_message(e: Error) -> Seq<char> {
    match e {
        Error::PoolError(pe) => "Couldn't get a client from the pool: "@ + pe@,
        Error::CACertFileError(ie) => "Failed to read CA cert: "@ + ie@,
        Error::InvalidCACert => "Invalid PEM file"@,
        Error::FailedToBuildTlsConnector => "Couldn't build a TLS connector with this certificate"@,
        Error::FailedToBuildPool => "Failed to build a database pool"@,
    }
}

impl Error {
    /// The human-readable message of this error.
    pub fn message(&self) -> (res: String)
        ensures
            res@ == spec_message(*self),
    {
        match self {
            Error::PoolError(pe) => concat("Couldn't get a client from the pool: ", pe.as_str()),
            Error::CACertFileError(ie) => concat("Failed to read CA cert: ", ie.as_str()),
            Error::InvalidCACert => String::from_str("Invalid PEM file"),
            Error::FailedToBuildTlsConnector => String::from_str(
                "Couldn't build a TLS connector with this certificate",
            ),
            Error::FailedToBuildPool => String::from_str("Failed to build a database pool"),
        }
    }
}

#[verifier::external_type_specification]
#[verifier::external_body]
pub struct ExCertificate(Certificate);

#[verifier::external_type_specification]
#[verifier::external_body]
pub struct ExTlsConnector(TlsConnector);

/// Whether the bytes are a PEM-encoded X.509 certificate that
/// `native_tls::Certificate::from_pem` accepts.
pub uninterp spec fn pem_certificate_valid(pem: Seq<u8>) -> bool;

/// Trusted: `native_tls::Certificate::from_pem` parses the bytes as a
/// PEM-encoded certificate (with OpenSSL here) and fails exactly when they
/// are not one; the outcome depends on the bytes alone and is named, not
/// restated.
#[verifier::external_body]
fn certificate_from_pem(pem: &[u8]) -> (res: Option<Certificate>)
    ensures
        res is Some <==> pem_certificate_valid(pem@),
{
    Certificate::from_pem(pem).ok()
}

/// Trusted: `TlsConnector::builder().add_root_certificate(cert).build()`
/// builds a client TLS connector trusting `cert`. Whether the build succeeds
/// depends on the system's TLS library, so nothing is stated of the outcome.
#[verifier::external_body]
fn connector_trusting(cert: Certificate) -> (res: Option<TlsConnector>) {
    TlsConnector::builder().add_root_certificate(cert).build().ok()
}

/// The TLS connector for the database connection: none without a CA
/// certificate; otherwise, in this order, the error of reading the
/// certificate file, `InvalidCACert` when its bytes are not a PEM
/// certificate, and `FailedToBuildTlsConnector` when no connector trusting
/// it can be built (what the build gave is decided by `connector_outcome`).
/// `ca` is the outcome of reading the CA certificate file, with the read
/// error's message.
pub fn tls_for_ca(ca: Option<Result<Vec<u8>, String>>) -> (res: Result<Option<TlsConnector>, Error>)
    ensures
        ca is None ==> res matches Ok(None),
        ca matches Some(Err(m)) ==> res == Err::<Option<TlsConnector>, Error>(Error::CACertFileError(m)),
        ca matches Some(Ok(b)) && !pem_certificate_valid(b@) ==> res == Err::<
            Option<TlsConnector>,
            Error,
        >(Error::InvalidCACert),
        ca matches Some(Ok(b)) && pem_certificate_valid(b@) ==> (res matches Ok(Some(_)) || res
            == Err::<Option<TlsConnector>, Error>(Error::FailedToBuildTlsConnector)),
{
    match ca {
        None => Ok(None),
        Some(Err(m)) => Err(Error::CACertFileError(m)),
        Some(Ok(bytes)) => match certificate_from_pem(bytes.as_slice()) {
            None => Err(Error::InvalidCACert),
            Some(cert) => connector_outcome(connector_trusting(cert)),
        },
    }
}

/// The connector that was built, or `FailedToBuildTlsConnector` when
/// building it failed. `built` is the outcome of building a connector that
/// trusts the CA certificate.
pub fn connector_outcome(built: Option<TlsConnector>) -> (res: Result<Option<TlsConnector>, Error>)
    ensures
        match built {
            Some(c) => res == Ok::<Option<TlsConnector>, Error>(Some(c)),
            None => res == Err::<Option<TlsConnector>, Error>(Error::FailedToBuildTlsConnector),
        },
{
    match built {
        Some(tls) => Ok(Some(tls)),
        None => Err(Error::FailedToBuildTlsConnector),
    }
}

/// The pool, or `FailedToBuildPool` when building it failed. `built` is the
/// outcome of building the connection pool.
pub fn pool_outcome<P>(built: Option<P>) -> (res: Result<P, Error>)
    ensures
        match built {
            Some(p) => res == Ok::<P, Error>(p),
            None => res == Err::<P, Error>(Error::FailedToBuildPool),
        },
{
    match built {
        Some(p) => Ok(p),
        None => Err(Error::FailedToBuildPool),
    }
}

} // verus!
