//! TLS material: what stands in the text of PEM files.

use vstd::prelude::*;
use rustls::pki_types::PrivateKeyDer;

verus! {

/// How the octets of a private key are laid out.
#[derive(Clone, Copy, Debug, PartialEq, Eq, Structural)]
pub enum KeyFormat {
    Pkcs1,
    Sec1,
    Pkcs8,
}

/// Why there is no TLS material in a text.
#[derive(Debug)]
pub enum PemError {
    /// A section cannot be read; says why.
    Malformed(String),
    NoPrivateKey,
}

/// The certificates in a PEM text, as `rustls_pemfile::certs` reads them, or
/// why it cannot.
pub uninterp spec fn pem_certificates(text: Seq<u8>) -> Result<Seq<Seq<u8>>, Seq<char>>;

/// The first private key in a PEM text, if there is one, as
/// `rustls_pemfile::private_key` reads it, or why it cannot.
pub uninterp spec fn pem_private_key(text: Seq<u8>) -> Result<
    Option<(KeyFormat, Seq<u8>)>,
    Seq<char>,
>;

/// The octets of each element.
pub open spec fn octets_of(list: Seq<Vec<u8>>) -> Seq<Seq<u8>> {
    list.map_values(|octets: Vec<u8>| octets@)
}

/// `rustls_pemfile::certs`, read to its end or to its first error.
///
/// Taken on trust: what comes out, the words of an error as well, depends on
/// the text alone, and is named `pem_certificates`. How a PEM text is read is
/// left unsaid.
#[verifier::external_body]
fn certificates_in(text: &[u8]) -> (r: Result<Vec<Vec<u8>>, String>)
    ensures
        match r {
            Ok(certs) => pem_certificates(text@) == Ok::<Seq<Seq<u8>>, Seq<char>>(
                octets_of(certs@),
            ),
            Err(why) => pem_certificates(text@) == Err::<Seq<Seq<u8>>, Seq<char>>(why@),
        },
{
    let mut reader: &[u8] = text;
    rustls_pemfile::certs(&mut reader)
        .map(|cert| cert.map(|der| der.as_ref().to_vec()).map_err(|e| e.to_string()))
        .collect()
}

/// `rustls_pemfile::private_key`, which gives a key of one of three formats.
///
/// Taken on trust: what comes out, the words of an error as well, depends on
/// the text alone, and is named `pem_private_key`. How a PEM text is read is
/// left unsaid.
#[verifier::external_body]
fn private_key_in(text: &[u8]) -> (r: Result<Option<(KeyFormat, Vec<u8>)>, String>)
    ensures
        match r {
            Ok(None) => pem_private_key(text@) == Ok::<
                Option<(KeyFormat, Seq<u8>)>,
                Seq<char>,
            >(None),
            Ok(Some(key)) => pem_private_key(text@) == Ok::<
                Option<(KeyFormat, Seq<u8>)>,
                Seq<char>,
            >(Some((key.0, key.1@))),
            Err(why) => pem_private_key(text@) == Err::<
                Option<(KeyFormat, Seq<u8>)>,
                Seq<char>,
            >(why@),
        },
{
    let mut reader: &[u8] = text;
    match rustls_pemfile::private_key(&mut reader) {
        Ok(Some(PrivateKeyDer::Pkcs1(key))) => {
            Ok(Some((KeyFormat::Pkcs1, key.secret_pkcs1_der().to_vec())))
        },
        Ok(Some(PrivateKeyDer::Sec1(key))) => {
            Ok(Some((KeyFormat::Sec1, key.secret_sec1_der().to_vec())))
        },
        // The third format, matched by a name because the enum is non-exhaustive.
        Ok(Some(key)) => Ok(Some((KeyFormat::Pkcs8, key.secret_der().to_vec()))),
        Ok(None) => Ok(None),
        Err(e) => Err(e.to_string()),
    }
}

/// All certificates in a PEM text, in order. Sections of other kinds are passed
/// over.
pub fn load_certs(text: &[u8]) -> (r: Result<Vec<Vec<u8>>, PemError>)
    ensures
        match pem_certificates(text@) {
            Ok(certs) => r matches Ok(x) && octets_of(x@) == certs,
            Err(why) => r matches Err(PemError::Malformed(x)) && x@ == why,
        },
{
    match certificates_in(text) {
        Ok(certs) => Ok(certs),
        Err(why) => Err(PemError::Malformed(why)),
    }
}

/// A text in which no private key was found is as bad as one that cannot be
/// read.
pub fn require_private_key(found: Result<Option<(KeyFormat, Vec<u8>)>, String>) -> (r: Result<
    (KeyFormat, Vec<u8>),
    PemError,
>)
    ensures
        r == match found {
            Ok(Some(key)) => Ok(key),
            Ok(None) => Err(PemError::NoPrivateKey),
            Err(why) => Err(PemError::Malformed(why)),
        },
{
    match found {
        Ok(Some(key)) => Ok(key),
        Ok(None) => Err(PemError::NoPrivateKey),
        Err(why) => Err(PemError::Malformed(why)),
    }
}

/// The first private key in a PEM text. Sections of other kinds are passed over.
pub fn load_private_key(text: &[u8]) -> (r: Result<(KeyFormat, Vec<u8>), PemError>)
    ensures
        match pem_private_key(text@) {
            Ok(Some(key)) => r matches Ok(x) && x.0 == key.0 && x.1@ == key.1,
            Ok(None) => r matches Err(PemError::NoPrivateKey),
            Err(why) => r matches Err(PemError::Malformed(x)) && x@ == why,
        },
{
    require_private_key(private_key_in(text))
}

} // verus!
