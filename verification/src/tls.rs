//! The certificates and key that authenticate the server to its agents,
//! read from PEM text.
use vstd::prelude::*;

verus! {

/// The DER encodings of the certificate sections of PEM text, in order,
/// or nothing when a section cannot be read.
pub uninterp spec fn pem_certificates_of(pem: Seq<u8>) -> Option<Seq<Seq<u8>>>;

/// The first PKCS#8 private-key section of PEM text: `None` when there is
/// none, `Some(None)` when a section cannot be read before it is reached.
pub uninterp spec fn pem_first_pkcs8_key_of(pem: Seq<u8>) -> Option<Option<Seq<u8>>>;

/// Reads the certificate sections of PEM text with
/// `rustls_pemfile::certs`, stopping at the first section that cannot be
/// read. The contract names the outcome as a function of the text; what
/// counts as a readable section is left to that crate.
#[verifier::external_body]
fn read_pem_certificates(pem: &[u8]) -> (r: Option<Vec<Vec<u8>>>)
    ensures
        match r {
            Some(v) => pem_certificates_of(pem@) == Some(v@.map_values(|c: Vec<u8>| c@)),
            None => pem_certificates_of(pem@) is None,
        },
{
    let mut rd = pem;
    let certs = rustls_pemfile::certs(&mut rd).map(|c| c.map(|c| c.as_ref().to_vec()).ok()).collect();
    certs
}

/// Reads the first PKCS#8 key section of PEM text with
/// `rustls_pemfile::pkcs8_private_keys`. The contract names the outcome
/// as a function of the text.
#[verifier::external_body]
fn read_pem_first_pkcs8_key(pem: &[u8]) -> (r: Option<Option<Vec<u8>>>)
    ensures
        match r {
            Some(Some(k)) => pem_first_pkcs8_key_of(pem@) == Some(Some(k@)),
            Some(None) => pem_first_pkcs8_key_of(pem@) == Some(None::<Seq<u8>>),
            None => pem_first_pkcs8_key_of(pem@) is None,
        },
{
    let mut rd = pem;
    let first = rustls_pemfile::pkcs8_private_keys(&mut rd).next();
    first.map(|k| k.map(|k| k.secret_pkcs8_der().to_vec()).ok())
}

/// Why PEM text does not give what is needed.
#[derive(Debug)]
pub enum PemError {
    /// A section cannot be read.
    Malformed,
    /// There is no private key.
    NoPrivateKey,
}

/// The certificates of PEM text, in order.
pub fn certificates_from_pem(pem: &[u8]) -> (r: Result<Vec<Vec<u8>>, PemError>)
    ensures
        match pem_certificates_of(pem@) {
            Some(certs) => r matches Ok(v) && v@.map_values(|c: Vec<u8>| c@) == certs,
            None => r matches Err(PemError::Malformed),
        },
{
    match read_pem_certificates(pem) {
        Some(v) => Ok(v),
        None => Err(PemError::Malformed),
    }
}

/// The first PKCS#8 private key of PEM text.
pub fn private_key_from_pem(pem: &[u8]) -> (r: Result<Vec<u8>, PemError>)
    ensures
        match pem_first_pkcs8_key_of(pem@) {
            Some(Some(k)) => r matches Ok(v) && v@ == k,
            Some(None) => r matches Err(PemError::Malformed),
            None => r matches Err(PemError::NoPrivateKey),
        },
{
    match read_pem_first_pkcs8_key(pem) {
        Some(Some(k)) => Ok(k),
        Some(None) => Err(PemError::Malformed),
        None => Err(PemError::NoPrivateKey),
    }
}

} // verus!
