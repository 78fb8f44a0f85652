//! The key and certificates of the TLS server, read from PEM text.

use tokio_rustls::rustls::pki_types::PrivateKeyDer;
use vstd::prelude::*;

verus! {

/// The kind of a private key, as its PEM section labels it.
#[derive(Clone, Copy, Debug, PartialEq, Eq, Structural)]
pub enum KeyFormat {
    /// `RSA PRIVATE KEY` (PKCS#1).
    Pkcs1,
    /// `EC PRIVATE KEY` (SEC1).
    Sec1,
    /// `PRIVATE KEY` (PKCS#8).
    Pkcs8,
}

/// What `rustls_pemfile::private_key` finds in PEM text: the first private
/// key section, as its kind and DER bytes (`None` when there is none), or the
/// text of the error met while reading the sections before it.
pub uninterp spec fn pem_first_key(pem: Seq<u8>) -> Result<Option<(KeyFormat, Seq<u8>)>, Seq<char>>;

/// What collecting `rustls_pemfile::certs` over PEM text gives: the DER bytes
/// of its certificate sections in order, or the text of the first error met.
pub uninterp spec fn pem_certificates(pem: Seq<u8>) -> Result<Seq<Seq<u8>>, Seq<char>>;

/// The views of a list of byte vectors.
pub open spec fn byte_views(v: Seq<Vec<u8>>) -> Seq<Seq<u8>> {
    v.map_values(|b: Vec<u8>| b@)
}

/// Finds the first private key in PEM text with `rustls_pemfile::private_key`.
/// Trusted: the outcome is what `pem_first_key` names for the text (the
/// parser reads the given bytes alone).  That function yields only the three
/// kinds of `KeyFormat`; the last arm below is never taken.
#[verifier::external_body]
fn pem_private_key(pem: &[u8]) -> (r: Result<Option<(KeyFormat, Vec<u8>)>, String>)
    ensures
        match r {
            Ok(Some((k, d))) => pem_first_key(pem@) == Ok::<Option<(KeyFormat, Seq<u8>)>, Seq<char>>(Some((k, d@))),
            Ok(None) => pem_first_key(pem@) == Ok::<Option<(KeyFormat, Seq<u8>)>, Seq<char>>(None),
            Err(e) => pem_first_key(pem@) == Err::<Option<(KeyFormat, Seq<u8>)>, Seq<char>>(e@),
        },
{
    let mut reader = pem;
    match rustls_pemfile::private_key(&mut reader) {
        Ok(None) => Ok(None),
        Ok(Some(PrivateKeyDer::Pkcs1(k))) => Ok(Some((KeyFormat::Pkcs1, k.secret_pkcs1_der().to_vec()))),
        Ok(Some(PrivateKeyDer::Sec1(k))) => Ok(Some((KeyFormat::Sec1, k.secret_sec1_der().to_vec()))),
        Ok(Some(PrivateKeyDer::Pkcs8(k))) => Ok(Some((KeyFormat::Pkcs8, k.secret_pkcs8_der().to_vec()))),
        Ok(Some(other)) => Err(format!("unsupported private key: {other:?}")),
        Err(e) => Err(e.to_string()),
    }
}

/// Reads the certificates in PEM text with `rustls_pemfile::certs`, collected
/// until the first error.  Trusted: the outcome is what `pem_certificates`
/// names for the text.
#[verifier::external_body]
fn pem_certs(pem: &[u8]) -> (r: Result<Vec<Vec<u8>>, String>)
    ensures
        match r {
            Ok(v) => pem_certificates(pem@) == Ok::<Seq<Seq<u8>>, Seq<char>>(byte_views(v@)),
            Err(e) => pem_certificates(pem@) == Err::<Seq<Seq<u8>>, Seq<char>>(e@),
        },
{
    let mut reader = pem;
    let mut out = Vec::new();
    for cert in rustls_pemfile::certs(&mut reader) {
        match cert {
            Ok(c) => out.push(c.to_vec()),
            Err(e) => return Err(e.to_string()),
        }
    }
    Ok(out)
}

/// The private key of the TLS server: the first key in the PEM text, refused
/// with "Key is invalid" when there is none.
pub fn tls_private_key(key_pem: &[u8]) -> (r: Result<(KeyFormat, Vec<u8>), String>)
    ensures
        match pem_first_key(key_pem@) {
            Ok(Some((k, d))) => r matches Ok((k2, d2)) && k2 == k && d2@ == d,
            Ok(None) => r matches Err(e) && e@ == "Key is invalid"@,
            Err(m) => r matches Err(e) && e@ == m,
        },
{
    match pem_private_key(key_pem) {
        Ok(Some((k, d))) => Ok((k, d)),
        Ok(None) => Err("Key is invalid".to_owned()),
        Err(e) => Err(e),
    }
}

/// The certificate chain of the TLS server, in the order of the PEM text.
pub fn tls_certificates(cert_pem: &[u8]) -> (r: Result<Vec<Vec<u8>>, String>)
    ensures
        match pem_certificates(cert_pem@) {
            Ok(cs) => r matches Ok(v) && byte_views(v@) == cs,
            Err(m) => r matches Err(e) && e@ == m,
        },
{
    pem_certs(cert_pem)
}

/// What the TLS server is set up with: its private key and its certificate
/// chain.
#[derive(Debug)]
pub struct TlsMaterial {
    pub key_format: KeyFormat,
    pub key_der: Vec<u8>,
    pub certificates: Vec<Vec<u8>>,
}

/// Reads the TLS server's key, then its certificates: the first failure is
/// the answer.
pub fn tls_material(key_pem: &[u8], cert_pem: &[u8]) -> (r: Result<TlsMaterial, String>)
    ensures
        match pem_first_key(key_pem@) {
            Err(m) => r matches Err(e) && e@ == m,
            Ok(None) => r matches Err(e) && e@ == "Key is invalid"@,
            Ok(Some((k, d))) => match pem_certificates(cert_pem@) {
                Err(m) => r matches Err(e) && e@ == m,
                Ok(cs) => r matches Ok(t) && t.key_format == k && t.key_der@ == d && byte_views(
                    t.certificates@,
                ) == cs,
            },
        },
{
    let (key_format, key_der) = tls_private_key(key_pem)?;
    let certificates = tls_certificates(cert_pem)?;
    Ok(TlsMaterial { key_format, key_der, certificates })
}

} // verus!
