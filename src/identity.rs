//! The server identity: a certificate chain and a private key, read from PEM
//! text and installed in a TLS server configuration that asks no certificate
//! of clients.

use vstd::prelude::*;
use rustls::{ServerConfig, TLSError};

verus! {

#[verifier::external_type_specification]
#[verifier::external_body]
pub struct ExServerConfig(ServerConfig);

#[verifier::external_type_specification]
#[verifier::external_body]
pub struct ExTlsError(TLSError);

/// The DER bytes of each certificate section of a PEM text, in order; `None`
/// where a section does not decode.
pub uninterp spec fn pem_certificates(pem: Seq<u8>) -> Option<Seq<Seq<u8>>>;

/// The DER bytes of each RSA private key section of a PEM text, in order;
/// `None` where a section does not decode.
pub uninterp spec fn pem_rsa_keys(pem: Seq<u8>) -> Option<Seq<Seq<u8>>>;

/// Whether a DER private key is well formed as one of the kinds the TLS
/// library signs with: RSA, ECDSA or Ed25519.
pub uninterp spec fn key_supported(der: Seq<u8>) -> bool;

/// Whether a DER private key is a valid RSA key, in PKCS#1 or PKCS#8 form.
pub uninterp spec fn rsa_key_valid(der: Seq<u8>) -> bool;

/// Why the identity could not be set up.
#[derive(Debug, Clone, Copy, PartialEq, Eq, Structural)]
pub enum IdentityError {
    /// The key text holds a section that does not decode.
    UnreadableKey,
    /// The certificate text holds a section that does not decode.
    UnreadableCertificates,
    /// The key text holds no RSA private key.
    NoKey,
    /// The TLS library would not sign with the first key.
    KeyRejected,
}

/// A TLS server configuration together with what was put into it.
pub struct ServerIdentity {
    config: ServerConfig,
    asks_client_certificate: Ghost<bool>,
    certified: Ghost<Option<(Seq<Seq<u8>>, Seq<u8>)>>,
}

impl ServerIdentity {
    /// Whether clients are asked for a certificate of their own.
    pub closed spec fn asks_client_certificate(&self) -> bool {
        self.asks_client_certificate@
    }

    /// The certificate chain (DER, in order) and the private key (DER)
    /// presented to clients, once installed.
    pub closed spec fn certified(&self) -> Option<(Seq<Seq<u8>>, Seq<u8>)> {
        self.certified@
    }

    /// The configuration, ready to accept TLS sessions.
    pub fn into_config(self) -> ServerConfig {
        self.config
    }
}

/// Relies on rustls::internal::pemfile::certs, reading from the bytes given:
/// the certificates found, or its error; the outcome depends on the bytes alone.
#[verifier::external_body]
fn read_certificates(pem: &[u8]) -> (r: Option<Vec<Vec<u8>>>)
    ensures
        match r {
            Some(v) => pem_certificates(pem@) == Some(v.deep_view()),
            None => pem_certificates(pem@) is None,
        },
{
    let mut rd: &[u8] = pem;
    match rustls::internal::pemfile::certs(&mut rd) {
        Ok(cs) => Some(cs.into_iter().map(|c| c.0).collect()),
        Err(()) => None,
    }
}

/// Relies on rustls::internal::pemfile::rsa_private_keys, reading from the
/// bytes given: the keys found, or its error; the outcome depends on the bytes alone.
#[verifier::external_body]
fn read_rsa_keys(pem: &[u8]) -> (r: Option<Vec<Vec<u8>>>)
    ensures
        match r {
            Some(v) => pem_rsa_keys(pem@) == Some(v.deep_view()),
            None => pem_rsa_keys(pem@) is None,
        },
{
    let mut rd: &[u8] = pem;
    match rustls::internal::pemfile::rsa_private_keys(&mut rd) {
        Ok(ks) => Some(ks.into_iter().map(|k| k.0).collect()),
        Err(()) => None,
    }
}

/// Relies on rustls::ServerConfig::new with rustls::NoClientAuth::new: a
/// configuration with no certificate yet, whose verifier offers clients no
/// certificate request.
#[verifier::external_body]
fn config_without_client_auth() -> (r: ServerIdentity)
    ensures
        !r.asks_client_certificate(),
        r.certified() is None,
{
    ServerIdentity {
        config: ServerConfig::new(rustls::NoClientAuth::new()),
        asks_client_certificate: Ghost(false),
        certified: Ghost(None),
    }
}

/// Relies on rustls::ServerConfig::set_single_cert: on success the chain and
/// key are the ones presented from then on; on failure nothing changes. It
/// succeeds only on a key it can sign with, and always on a valid RSA key
/// (other kinds may also depend on the system's random source).
#[verifier::external_body]
fn set_single_cert(id: &mut ServerIdentity, chain: Vec<Vec<u8>>, key: Vec<u8>) -> (r: Result<(), TLSError>)
    ensures
        final(id).asks_client_certificate() == old(id).asks_client_certificate(),
        r is Ok ==> key_supported(key@),
        rsa_key_valid(key@) ==> r is Ok,
        r is Ok ==> final(id).certified() == Some((chain.deep_view(), key@)),
        r is Err ==> final(id).certified() == old(id).certified(),
{
    let certs = chain.into_iter().map(rustls::Certificate).collect();
    id.config.set_single_cert(certs, rustls::PrivateKey(key))
}

/// The failure met before any key is installed, reading the keys, then the
/// certificates, then taking the first key; `None` when there is a key to install.
pub open spec fn reading_failure(key_pem: Seq<u8>, cert_pem: Seq<u8>) -> Option<IdentityError> {
    match pem_rsa_keys(key_pem) {
        None => Some(IdentityError::UnreadableKey),
        Some(keys) => match pem_certificates(cert_pem) {
            None => Some(IdentityError::UnreadableCertificates),
            Some(_) => if keys.len() == 0 {
                Some(IdentityError::NoKey)
            } else {
                None
            },
        },
    }
}

/// Builds the server identity from the PEM text of the private key and of the
/// certificate chain: every certificate, in order, with the first RSA key,
/// and no certificate asked of clients.
pub fn server_config(key_pem: &[u8], cert_pem: &[u8]) -> (r: Result<ServerIdentity, IdentityError>)
    ensures
        reading_failure(key_pem@, cert_pem@) matches Some(e) ==> r == Err::<ServerIdentity, IdentityError>(e),
        reading_failure(key_pem@, cert_pem@) is None ==> {
            let keys = pem_rsa_keys(key_pem@)->0;
            let chain = pem_certificates(cert_pem@)->0;
            &&& r is Ok || r == Err::<ServerIdentity, IdentityError>(IdentityError::KeyRejected)
            &&& rsa_key_valid(keys[0]) ==> r is Ok
            &&& r matches Ok(id) ==> {
                &&& key_supported(keys[0])
                &&& id.certified() == Some((chain, keys[0]))
                &&& !id.asks_client_certificate()
            }
        },
{
    let mut keys = match read_rsa_keys(key_pem) {
        Some(keys) => keys,
        None => return Err(IdentityError::UnreadableKey),
    };
    let chain = match read_certificates(cert_pem) {
        Some(chain) => chain,
        None => return Err(IdentityError::UnreadableCertificates),
    };
    if keys.len() == 0 {
        return Err(IdentityError::NoKey);
    }
    proof {
        assert(keys.deep_view()[0] == keys@[0]@);
    }
    let key = keys.remove(0);
    let mut id = config_without_client_auth();
    match set_single_cert(&mut id, chain, key) {
        Ok(()) => Ok(id),
        Err(_) => Err(IdentityError::KeyRejected),
    }
}

} // verus!
