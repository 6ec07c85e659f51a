//! What a TLS client said in its hello, and where the server's certificate comes from.
use vstd::prelude::*;
use crate::headers::{lossy_text, utf8_lossy};
use rustls::pki_types::PrivateKeyDer;

verus! {

/// What a client offered in its TLS hello, and the cipher suite agreed on.
#[derive(Clone, Debug)]
pub struct ClientHelloInfo {
    pub offered_cipher_suites: Vec<String>,
    pub negotiated_cipher_suite: Option<String>,
    pub server_name: Option<String>,
    pub alpn_protocols: Vec<String>,
}

/// The name `rustls` prints for a cipher suite code.
pub uninterp spec fn cipher_suite_name_text(code: u16) -> Seq<char>;

/// Calls `format!("{:?}", rustls::CipherSuite::from(code))`. Claimed: the text
/// is a function of the code alone (the suite's name, or its number for an
/// unknown suite); which name belongs to which code is left unsaid.
#[verifier::external_body]
fn cipher_suite_name(code: u16) -> (res: String)
    ensures
        res@ == cipher_suite_name_text(code),
{
    format!("{:?}", rustls::CipherSuite::from(code))
}

/// The names of a list of cipher suites, in order.
pub open spec fn suite_names(codes: Seq<u16>) -> Seq<Seq<char>> {
    codes.map_values(|c: u16| cipher_suite_name_text(c))
}

/// The views of a list of strings.
pub open spec fn texts_view(v: Seq<String>) -> Seq<Seq<char>> {
    v.map_values(|s: String| s@)
}

/// The protocols a client named, each read as lossy UTF-8.
pub open spec fn protocol_texts(ps: Seq<Vec<u8>>) -> Seq<Seq<char>> {
    ps.map_values(|p: Vec<u8>| lossy_text(p@))
}

fn names_of_suites(codes: &Vec<u16>) -> (res: Vec<String>)
    ensures
        texts_view(res@) == suite_names(codes@),
{
    let mut out: Vec<String> = Vec::new();
    let mut i: usize = 0;
    while i < codes.len()
        invariant
            i <= codes.len(),
            texts_view(out@) == suite_names(codes@.take(i as int)),
        decreases codes.len() - i,
    {
        let name = cipher_suite_name(codes[i]);
        let ghost before = out@;
        out.push(name);
        assert(texts_view(out@) =~= texts_view(before).push(name@));
        assert(suite_names(codes@.take(i + 1)) =~= suite_names(codes@.take(i as int)).push(
            cipher_suite_name_text(codes@[i as int]),
        ));
        i = i + 1;
    }
    assert(codes@.take(codes.len() as int) =~= codes@);
    out
}

fn protocols_as_text(ps: &Vec<Vec<u8>>) -> (res: Vec<String>)
    ensures
        texts_view(res@) == protocol_texts(ps@),
{
    let mut out: Vec<String> = Vec::new();
    let mut i: usize = 0;
    while i < ps.len()
        invariant
            i <= ps.len(),
            texts_view(out@) == protocol_texts(ps@.take(i as int)),
        decreases ps.len() - i,
    {
        let text = utf8_lossy(ps[i].as_slice());
        let ghost before = out@;
        out.push(text);
        assert(texts_view(out@) =~= texts_view(before).push(text@));
        assert(protocol_texts(ps@.take(i + 1)) =~= protocol_texts(ps@.take(i as int)).push(
            lossy_text(ps@[i as int]@),
        ));
        i = i + 1;
    }
    assert(ps@.take(ps.len() as int) =~= ps@);
    out
}

impl ClientHelloInfo {
    /// Records a client hello: the names of the offered suites, the server
    /// name asked for, and the protocols named (none when the client sent no
    /// ALPN extension). No suite is agreed on yet.
    pub fn from_client_hello(
        cipher_suites: &Vec<u16>,
        server_name: Option<String>,
        alpn: Option<Vec<Vec<u8>>>,
    ) -> (res: ClientHelloInfo)
        ensures
            texts_view(res.offered_cipher_suites@) == suite_names(cipher_suites@),
            res.negotiated_cipher_suite is None,
            res.server_name == server_name,
            texts_view(res.alpn_protocols@) == match alpn {
                Some(ps) => protocol_texts(ps@),
                None => Seq::<Seq<char>>::empty(),
            },
    {
        let offered = names_of_suites(cipher_suites);
        let protocols = match alpn {
            Some(ps) => protocols_as_text(&ps),
            None => {
                let v: Vec<String> = Vec::new();
                assert(texts_view(v@) =~= Seq::<Seq<char>>::empty());
                v
            },
        };
        ClientHelloInfo {
            offered_cipher_suites: offered,
            negotiated_cipher_suite: None,
            server_name,
            alpn_protocols: protocols,
        }
    }

    /// Records the cipher suite the handshake settled on, if any.
    pub fn set_negotiated(&mut self, suite: Option<u16>)
        ensures
            final(self).offered_cipher_suites == old(self).offered_cipher_suites,
            final(self).server_name == old(self).server_name,
            final(self).alpn_protocols == old(self).alpn_protocols,
            match suite {
                Some(c) => final(self).negotiated_cipher_suite matches Some(n) && n@
                    == cipher_suite_name_text(c),
                None => final(self).negotiated_cipher_suite is None,
            },
    {
        self.negotiated_cipher_suite = match suite {
            Some(c) => Some(cipher_suite_name(c)),
            None => None,
        };
    }
}

/// Where the server's certificate and key come from.
#[derive(Clone, Debug)]
pub enum CertificateSource {
    /// PEM files at these paths.
    Files { cert_path: String, key_path: String },
    /// A self-signed certificate made at start-up.
    SelfSigned,
}

/// Files are used only when both paths are set; otherwise a certificate is made.
pub fn certificate_source(cert_path: Option<String>, key_path: Option<String>) -> (res:
    CertificateSource)
    ensures
        match (cert_path, key_path) {
            (Some(c), Some(k)) => res matches CertificateSource::Files { cert_path: rc, key_path: rk }
                && rc == c && rk == k,
            _ => res is SelfSigned,
        },
{
    match (cert_path, key_path) {
        (Some(c), Some(k)) => CertificateSource::Files { cert_path: c, key_path: k },
        _ => CertificateSource::SelfSigned,
    }
}

/// The names a self-signed certificate is made for.
pub fn self_signed_names() -> (res: Vec<String>)
    ensures
        texts_view(res@) == seq!["localhost"@],
{
    let mut v: Vec<String> = Vec::new();
    v.push("localhost".to_owned());
    assert(texts_view(v@) =~= seq!["localhost"@]);
    v
}

/// The application protocols the server offers: HTTP/1.1 only.
pub fn server_alpn_protocols() -> (res: Vec<Vec<u8>>)
    ensures
        res@.len() == 1,
        res@[0]@ == seq![104u8, 116, 116, 112, 47, 49, 46, 49],
{
    let mut p: Vec<u8> = Vec::new();
    p.push(104u8);
    p.push(116u8);
    p.push(116u8);
    p.push(112u8);
    p.push(47u8);
    p.push(49u8);
    p.push(46u8);
    p.push(49u8);
    let mut v: Vec<Vec<u8>> = Vec::new();
    v.push(p);
    assert(v@[0]@ =~= seq![104u8, 116, 116, 112, 47, 49, 46, 49]);
    v
}

/// The kinds of private key a PEM file can hold.
#[derive(Clone, Copy, Debug, PartialEq, Eq, Structural)]
pub enum PrivateKeyKind {
    /// An RSA key (`RSA PRIVATE KEY`).
    Pkcs1,
    /// An elliptic-curve key (`EC PRIVATE KEY`).
    Sec1,
    /// A PKCS#8 key (`PRIVATE KEY`).
    Pkcs8,
}

/// Why the server's certificate could not be set up.
#[derive(Clone, Copy, Debug, PartialEq, Eq, Structural)]
pub enum TlsFileError {
    /// The certificate file holds a PEM section that cannot be read.
    CertificatesUnreadable,
    /// The key file holds a PEM section that cannot be read.
    KeyUnreadable,
    /// The key file holds no private key.
    NoPrivateKey,
    /// No self-signed certificate could be made.
    SelfSignedFailed,
}

/// The text each failure is reported with.
pub open spec fn tls_error_text(e: TlsFileError) -> Seq<char> {
    match e {
        TlsFileError::CertificatesUnreadable => "Zertifikat konnte nicht geparst werden"@,
        TlsFileError::KeyUnreadable => "Private Key konnte nicht geparst werden"@,
        TlsFileError::NoPrivateKey => "Keine Private-Key-PEM-Sektion gefunden"@,
        TlsFileError::SelfSignedFailed => "Selbstsigniertes Zertifikat konnte nicht generiert werden"@,
    }
}

impl TlsFileError {
    /// The text the failure is reported with.
    pub fn message(&self) -> (res: &'static str)
        ensures
            res@ == tls_error_text(*self),
    {
        match self {
            TlsFileError::CertificatesUnreadable => "Zertifikat konnte nicht geparst werden",
            TlsFileError::KeyUnreadable => "Private Key konnte nicht geparst werden",
            TlsFileError::NoPrivateKey => "Keine Private-Key-PEM-Sektion gefunden",
            TlsFileError::SelfSignedFailed => "Selbstsigniertes Zertifikat konnte nicht generiert werden",
        }
    }
}

/// The DER certificates of the PEM `CERTIFICATE` sections of a text, in
/// order, or none when a section cannot be read.
pub uninterp spec fn pem_certificates(pem: Seq<u8>) -> Option<Seq<Seq<u8>>>;

/// The first private key among the PEM sections of a text: its kind and DER
/// bytes, none when there is no key section, or a failure when a section
/// before it cannot be read.
pub uninterp spec fn pem_first_private_key(pem: Seq<u8>) -> Result<Option<(PrivateKeyKind, Seq<u8>)>, ()>;

/// The byte strings of a list.
pub open spec fn ders_view(v: Seq<Vec<u8>>) -> Seq<Seq<u8>> {
    v.map_values(|d: Vec<u8>| d@)
}

/// Calls `rustls_pemfile::certs` and collects its items, stopping at the
/// first error. Claimed: the outcome is a function of the text alone, named
/// `pem_certificates`; which PEM texts read as which DER bytes is left unsaid.
#[verifier::external_body]
fn read_pem_certificates(pem: &[u8]) -> (res: Option<Vec<Vec<u8>>>)
    ensures
        match res {
            Some(v) => pem_certificates(pem@) == Some(ders_view(v@)),
            None => pem_certificates(pem@) is None,
        },
{
    rustls_pemfile::certs(&mut &pem[..])
        .map(|c| c.map(|c| c.as_ref().to_vec()))
        .collect::<Result<Vec<Vec<u8>>, std::io::Error>>()
        .ok()
}

/// Calls `rustls_pemfile::private_key`. Claimed: the outcome is a function of
/// the text alone, named `pem_first_private_key`, with the key's kind told by
/// its variant. The function yields only the three kinds named here; any other
/// is reported as a failure.
#[verifier::external_body]
fn read_pem_private_key(pem: &[u8]) -> (res: Result<Option<(PrivateKeyKind, Vec<u8>)>, ()>)
    ensures
        match res {
            Ok(Some((kind, der))) => pem_first_private_key(pem@) == Ok::<
                Option<(PrivateKeyKind, Seq<u8>)>,
                (),
            >(Some((kind, der@))),
            Ok(None) => pem_first_private_key(pem@) == Ok::<Option<(PrivateKeyKind, Seq<u8>)>, ()>(None),
            Err(_) => pem_first_private_key(pem@) is Err,
        },
{
    let key = match rustls_pemfile::private_key(&mut &pem[..]) {
        Ok(Some(key)) => key,
        Ok(None) => return Ok(None),
        Err(_) => return Err(()),
    };
    let kind = match &key {
        PrivateKeyDer::Pkcs1(_) => PrivateKeyKind::Pkcs1,
        PrivateKeyDer::Sec1(_) => PrivateKeyKind::Sec1,
        PrivateKeyDer::Pkcs8(_) => PrivateKeyKind::Pkcs8,
        _ => return Err(()),
    };
    Ok(Some((kind, key.secret_der().to_vec())))
}

/// Reads the server's certificate chain and private key from the texts of the
/// certificate and key files: the certificates first, then the first key.
pub fn server_certificate(cert_pem: &[u8], key_pem: &[u8]) -> (res: Result<
    (Vec<Vec<u8>>, PrivateKeyKind, Vec<u8>),
    TlsFileError,
>)
    ensures
        match pem_certificates(cert_pem@) {
            None => res == Err::<(Vec<Vec<u8>>, PrivateKeyKind, Vec<u8>), TlsFileError>(
                TlsFileError::CertificatesUnreadable,
            ),
            Some(certs) => match pem_first_private_key(key_pem@) {
                Err(_) => res == Err::<(Vec<Vec<u8>>, PrivateKeyKind, Vec<u8>), TlsFileError>(
                    TlsFileError::KeyUnreadable,
                ),
                Ok(None) => res == Err::<(Vec<Vec<u8>>, PrivateKeyKind, Vec<u8>), TlsFileError>(
                    TlsFileError::NoPrivateKey,
                ),
                Ok(Some((kind, der))) => res matches Ok((c, k, d)) && ders_view(c@) == certs && k
                    == kind && d@ == der,
            },
        },
{
    let certs = match read_pem_certificates(cert_pem) {
        Some(c) => c,
        None => return Err(TlsFileError::CertificatesUnreadable),
    };
    match read_pem_private_key(key_pem) {
        Err(_) => Err(TlsFileError::KeyUnreadable),
        Ok(None) => Err(TlsFileError::NoPrivateKey),
        Ok(Some((kind, der))) => Ok((certs, kind, der)),
    }
}

/// The DNS names among the subject-alternative-name entries of a DER
/// certificate, in the order they stand there.
pub uninterp spec fn certificate_dns_names(der: Seq<u8>) -> Seq<Seq<char>>;

/// The certificate carries the public key of the PKCS#8 DER private key `key`
/// and is signed with that key.
pub uninterp spec fn certificate_matches_key(cert: Seq<u8>, key: Seq<u8>) -> bool;

/// A name that `std` does not read as an IP address: it holds no `:` (so no
/// IPv6 address) and some character other than a digit or `.` (so no IPv4
/// address).
pub open spec fn is_dns_style_name(s: Seq<char>) -> bool {
    &&& forall|i: int| 0 <= i < s.len() ==> #[trigger] s[i] != ':'
    &&& exists|i: int| 0 <= i < s.len() && !('0' <= #[trigger] s[i] <= '9') && s[i] != '.'
}

/// Calls `rcgen::generate_simple_self_signed` and serialises the certificate
/// and its key pair (`Certificate::der`, `KeyPair::serialize_der`).
/// Claimed: rcgen makes one subject-alternative-name entry per given name, in
/// order, a DNS name for each name that does not parse as an IP address; the
/// certificate carries the generated key pair's public key and is signed with
/// it. The key itself is drawn at random, so its bytes are left unsaid.
#[verifier::external_body]
fn generate_self_signed_der(names: Vec<String>) -> (res: Result<(Vec<u8>, Vec<u8>), ()>)
    ensures
        res matches Ok((cert, key)) ==> {
            &&& (forall|i: int| 0 <= i < names@.len() ==> is_dns_style_name(#[trigger] names@[i]@))
                ==> certificate_dns_names(cert@) == texts_view(names@)
            &&& certificate_matches_key(cert@, key@)
        },
{
    rcgen::generate_simple_self_signed(names)
        .map(|g| (g.cert.der().to_vec(), g.signing_key.serialize_der()))
        .map_err(|_| ())
}

/// Makes a self-signed certificate for `localhost`: a chain of that one
/// certificate, and the DER bytes of its key.
pub fn self_signed_certificate() -> (res: Result<(Vec<Vec<u8>>, Vec<u8>), TlsFileError>)
    ensures
        res is Err ==> res == Err::<(Vec<Vec<u8>>, Vec<u8>), TlsFileError>(
            TlsFileError::SelfSignedFailed,
        ),
        res matches Ok((chain, key)) ==> {
            &&& chain@.len() == 1
            &&& certificate_dns_names(chain@[0]@) == seq!["localhost"@]
            &&& certificate_matches_key(chain@[0]@, key@)
        },
{
    let names = self_signed_names();
    proof {
        reveal_strlit("localhost");
        assert(texts_view(names@).len() == names@.len());
        assert(texts_view(names@)[0] == names@[0]@);
        assert(names@[0]@ == "localhost"@);
        assert(names@[0]@[0] == 'l');
    }
    match generate_self_signed_der(names) {
        Ok((cert, key)) => {
            let mut chain: Vec<Vec<u8>> = Vec::new();
            chain.push(cert);
            Ok((chain, key))
        },
        Err(_) => Err(TlsFileError::SelfSignedFailed),
    }
}

} // verus!
