//! TLS credentials and server context. The PEM material is parsed and the
//! server configuration is built by rustls and rustls-pemfile behind trusted
//! wrappers; this module states when each step succeeds and maps every
//! failure to the library's own error.
use vstd::prelude::*;

verus! {

use rustls::pki_types::CertificateDer;
use rustls::pki_types::PrivateKeyDer;

#[verifier::external_type_specification]
#[verifier::external_body]
pub struct ExCertificateDer<'a>(CertificateDer<'a>);

#[verifier::external_type_specification]
#[verifier::external_body]
pub struct ExPrivateKeyDer<'a>(PrivateKeyDer<'a>);

#[verifier::external_type_specification]
#[verifier::external_body]
pub struct ExServerConfig(rustls::ServerConfig);

#[verifier::external_type_specification]
#[verifier::external_body]
pub struct ExRustlsError(rustls::Error);

#[verifier::external_type_specification]
#[verifier::external_body]
pub struct ExIoError(std::io::Error);

/// Why certificate or key material was rejected at startup.
#[derive(Debug, PartialEq, Eq, Structural, Clone, Copy)]
pub enum TlsError {
    /// The certificate input is not well-formed PEM.
    CertRead,
    /// The certificate input holds no certificate section.
    NoCerts,
    /// The key input is not well-formed PEM.
    KeyRead,
    /// The key input holds no RSA private-key section.
    NoKey,
    /// The TLS library rejected the certificate/key pair.
    InvalidMaterial,
}

// What rustls_pemfile::certs finds in the given bytes: the number of
// certificate sections when the PEM input parses, and nothing when it does
// not. The outcome is a function of the bytes alone.
pub uninterp spec fn pem_certs_of(data: Seq<u8>) -> Option<nat>;

// What rustls_pemfile::rsa_private_keys finds first in the given bytes:
// nothing when the PEM input is malformed before any RSA key section,
// Some(false) when no RSA key section is present, Some(true) when one is.
// The outcome is a function of the bytes alone.
pub uninterp spec fn first_rsa_key_of(data: Seq<u8>) -> Option<bool>;

/// Relies on rustls_pemfile::certs: yields every CERTIFICATE PEM section of
/// its input as DER bytes, or an error for a malformed section; collecting
/// gives all certificates or the first error.
#[verifier::external_body]
fn pem_certs(data: &Vec<u8>) -> (r: Result<Vec<CertificateDer<'static>>, std::io::Error>)
    ensures
        r matches Ok(v) ==> pem_certs_of(data@) == Some(v@.len() as nat),
        r is Err ==> pem_certs_of(data@) is None,
{
    rustls_pemfile::certs(&mut data.as_slice()).collect()
}

/// Relies on rustls_pemfile::rsa_private_keys: yields the RSA (PKCS#1) PEM
/// sections of its input in order; the first one found, if any, is handed
/// back as a PrivateKeyDer.
#[verifier::external_body]
fn pem_first_rsa_key(data: &Vec<u8>) -> (r: Result<Option<PrivateKeyDer<'static>>, std::io::Error>)
    ensures
        match r {
            Ok(Some(_)) => first_rsa_key_of(data@) == Some(true),
            Ok(None) => first_rsa_key_of(data@) == Some(false),
            Err(_) => first_rsa_key_of(data@) is None,
        },
{
    match rustls_pemfile::rsa_private_keys(&mut data.as_slice()).next() {
        None => Ok(None),
        Some(Ok(key)) => Ok(Some(key.into())),
        Some(Err(e)) => Err(e),
    }
}

/// Relies on rustls: `ServerConfig::builder().with_no_client_auth()
/// .with_single_cert(..)` builds a server configuration that requires no
/// client certificate, and fails when the key is unusable or does not match
/// the certificate chain.
#[verifier::external_body]
fn make_server_config(certs: Vec<CertificateDer<'static>>, key: PrivateKeyDer<'static>) -> (r: Result<
    rustls::ServerConfig,
    rustls::Error,
>) {
    rustls::ServerConfig::builder().with_no_client_auth().with_single_cert(certs, key)
}

/// Parses the certificate chain out of PEM bytes. Succeeds exactly when the
/// input parses and holds at least one certificate section; a malformed input
/// and an input without certificates are told apart in the error.
pub fn load_certs(data: &Vec<u8>) -> (r: Result<Vec<CertificateDer<'static>>, TlsError>)
    ensures
        r is Ok <==> (pem_certs_of(data@) matches Some(n) && n > 0),
        r matches Ok(v) ==> pem_certs_of(data@) == Some(v@.len() as nat) && v@.len() > 0,
        r matches Err(e) ==> ((e == TlsError::CertRead && pem_certs_of(data@) is None) || (e
            == TlsError::NoCerts && pem_certs_of(data@) == Some(0nat))),
    {
    match pem_certs(data) {
        Err(_) => Err(TlsError::CertRead),
        Ok(v) => {
            if v.len() == 0 {
                Err(TlsError::NoCerts)
            } else {
                Ok(v)
            }
        },
    }
}

/// Parses the first RSA private key out of PEM bytes. Succeeds exactly when
/// the input parses far enough and holds an RSA key section; a malformed
/// input and an input without a key are told apart in the error.
pub fn load_keys(data: &Vec<u8>) -> (r: Result<PrivateKeyDer<'static>, TlsError>)
    ensures
        r is Ok <==> first_rsa_key_of(data@) == Some(true),
        r matches Err(e) ==> ((e == TlsError::KeyRead && first_rsa_key_of(data@) is None) || (e
            == TlsError::NoKey && first_rsa_key_of(data@) == Some(false))),
    {
    match pem_first_rsa_key(data) {
        Err(_) => Err(TlsError::KeyRead),
        Ok(None) => Err(TlsError::NoKey),
        Ok(Some(key)) => Ok(key),
    }
}

/// Builds the server TLS context from loaded material: no client certificate
/// is ever required, and whatever the TLS library rejects surfaces as
/// `InvalidMaterial` — fatal at startup, for there is no serving TLS with bad
/// credentials.
pub fn build_tls_context(certs: Vec<CertificateDer<'static>>, key: PrivateKeyDer<'static>) -> (r:
    Result<rustls::ServerConfig, TlsError>)
    ensures
        r matches Err(e) ==> e == TlsError::InvalidMaterial,
{
    match make_server_config(certs, key) {
        Ok(config) => Ok(config),
        Err(_) => Err(TlsError::InvalidMaterial),
    }
}

} // verus!
