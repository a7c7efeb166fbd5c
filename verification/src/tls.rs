//! The startup path from PEM bytes to a server TLS configuration.
//!
//! File reading stays outside the crate; this module takes the bytes of
//! the certificate-chain file and of the private-key file and produces the
//! opaque configuration object the handshake layer consumes.  Parsing and
//! configuration building are done by rustls-pemfile and rustls behind
//! trusted wrappers; the error taxonomy around them is verified: every
//! parse failure is reported as exactly one `TlsConfigError` variant.

use vstd::prelude::*;

verus! {

#[verifier::external_type_specification]
#[verifier::external_body]
pub struct ExCertificateDer<'a>(rustls_pki_types::CertificateDer<'a>);

#[verifier::external_type_specification]
#[verifier::external_body]
pub struct ExPrivateKeyDer<'a>(rustls_pki_types::PrivateKeyDer<'a>);

#[verifier::external_type_specification]
#[verifier::external_body]
pub struct ExServerConfig(rustls::ServerConfig);

#[verifier::external_type_specification]
#[verifier::external_body]
pub struct ExRustlsError(rustls::Error);

#[verifier::external_type_specification]
#[verifier::external_body]
pub struct ExIoError(std::io::Error);

/// Whether rustls_pemfile::certs reads the given bytes without error: true
/// exactly when every PEM section of the input is well-formed.  The
/// outcome is a function of the bytes alone.
pub uninterp spec fn pem_certificates_ok(pem: Seq<u8>) -> bool;

/// Whether rustls_pemfile::private_key finds a private key in the given
/// bytes: true exactly when the input is well-formed PEM up to and
/// including its first private-key section.  The outcome is a function of
/// the bytes alone.
pub uninterp spec fn pem_private_key_found(pem: Seq<u8>) -> bool;

/// Relies on rustls_pemfile::certs: yields the DER bytes of every PEM
/// section labelled CERTIFICATE, discarding other sections, and fails iff
/// a section is malformed.
#[verifier::external_body]
fn parse_certificates(pem: &[u8]) -> (r: Result<
    Vec<rustls_pki_types::CertificateDer<'static>>,
    std::io::Error,
>)
    ensures
        r is Ok <==> pem_certificates_ok(pem@),
{
    let mut reader: &[u8] = pem;
    rustls_pemfile::certs(&mut reader).collect()
}

/// Relies on rustls_pemfile::private_key: returns the first private-key
/// section (PKCS#8, PKCS#1 or SEC1) of the input, `Ok(None)` when the
/// input holds none, and an error iff a section before that is malformed.
#[verifier::external_body]
fn parse_private_key(pem: &[u8]) -> (r: Result<
    Option<rustls_pki_types::PrivateKeyDer<'static>>,
    std::io::Error,
>)
    ensures
        (r is Ok && r.unwrap() is Some) <==> pem_private_key_found(pem@),
{
    let mut reader: &[u8] = pem;
    rustls_pemfile::private_key(&mut reader)
}

/// Relies on rustls::ServerConfig::builder, with_no_client_auth and
/// with_single_cert: builds a server configuration around one certificate
/// chain and private key, without client authentication, and returns an
/// error when rustls rejects the pair.  Whether rustls accepts them
/// depends on the DER contents, which this crate does not model, so
/// nothing is promised of the outcome.
#[verifier::external_body]
fn assemble_server_config(
    certs: Vec<rustls_pki_types::CertificateDer<'static>>,
    key: rustls_pki_types::PrivateKeyDer<'static>,
) -> (r: Result<rustls::ServerConfig, rustls::Error>) {
    rustls::ServerConfig::builder().with_no_client_auth().with_single_cert(certs, key)
}

/// Why loading the TLS credentials failed.  Every variant is startup-fatal.
#[derive(Clone, Copy, PartialEq, Eq, Structural, Debug)]
pub enum TlsConfigError {
    /// The certificate-chain bytes are not well-formed PEM.
    InvalidCertificates,
    /// The private-key bytes are not well-formed PEM, or hold no key.
    InvalidPrivateKey,
    /// Both files parsed, but rustls rejected the certificate/key pair.
    RejectedCredentials,
}

/// The description of each credential failure, as the startup path logs it.
pub open spec fn spec_message(e: TlsConfigError) -> Seq<char> {
    match e {
        TlsConfigError::InvalidCertificates => "invalid certificate"@,
        TlsConfigError::InvalidPrivateKey => "invalid private key"@,
        TlsConfigError::RejectedCredentials => "TLS config error"@,
    }
}

impl TlsConfigError {
    /// A short description of the failure.
    pub fn message(&self) -> (m: &'static str)
        ensures
            m@ == spec_message(*self),
    {
        match self {
            TlsConfigError::InvalidCertificates => "invalid certificate",
            TlsConfigError::InvalidPrivateKey => "invalid private key",
            TlsConfigError::RejectedCredentials => "TLS config error",
        }
    }
}

/// Build the server TLS configuration from the bytes of the
/// certificate-chain file and of the private-key file.
///
/// The error pins the cause down: `InvalidCertificates` exactly when the
/// certificate bytes do not parse; `InvalidPrivateKey` exactly when they
/// do but no private key is found; `RejectedCredentials` only when both
/// parsed and rustls itself refused the pair.
pub fn server_config_from_pem(cert_pem: &[u8], key_pem: &[u8]) -> (r: Result<
    rustls::ServerConfig,
    TlsConfigError,
>)
    ensures
        r == Err::<rustls::ServerConfig, TlsConfigError>(TlsConfigError::InvalidCertificates)
            <==> !pem_certificates_ok(cert_pem@),
        r == Err::<rustls::ServerConfig, TlsConfigError>(TlsConfigError::InvalidPrivateKey)
            <==> (pem_certificates_ok(cert_pem@) && !pem_private_key_found(key_pem@)),
        r is Ok ==> pem_certificates_ok(cert_pem@) && pem_private_key_found(key_pem@),
{
    let certs = match parse_certificates(cert_pem) {
        Ok(c) => c,
        Err(_) => {
            return Err(TlsConfigError::InvalidCertificates);
        },
    };
    let key = match parse_private_key(key_pem) {
        Ok(Some(k)) => k,
        Ok(None) => {
            return Err(TlsConfigError::InvalidPrivateKey);
        },
        Err(_) => {
            return Err(TlsConfigError::InvalidPrivateKey);
        },
    };
    match assemble_server_config(certs, key) {
        Ok(config) => Ok(config),
        Err(_) => Err(TlsConfigError::RejectedCredentials),
    }
}

/// Relies on std::io::Error::new: builds an I/O error value of kind Other
/// carrying the message.
#[verifier::external_body]
fn io_error_other(msg: String) -> std::io::Error {
    std::io::Error::new(std::io::ErrorKind::Other, msg)
}

/// Wrap a message into the I/O error value the startup path fails with.
pub fn error(err: String) -> std::io::Error {
    io_error_other(err)
}

/// The startup-fatal I/O error a credential failure turns into before the
/// process aborts.
pub fn startup_error(e: TlsConfigError) -> std::io::Error {
    let msg = e.message();
    error(String::from_str(msg))
}

} // verus!
