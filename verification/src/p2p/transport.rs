//! Configuration of the QUIC transport.
//!
//! The server side presents a freshly generated self-signed Ed25519
//! certificate for [`SERVER_NAME`] that is no certificate authority, with
//! quinn's default transport parameters. What the certificate is issued for
//! is stated as a plain record, [`server_certificate_request`], and handed to
//! rcgen field for field; the configuration's contract speaks of the chain
//! and key it presents through names for what rcgen and quinn hold.

use vstd::prelude::*;
use vstd::utf8::is_ascii_chars;
use std::sync::Arc;

verus! {

#[verifier::external_type_specification]
#[verifier::external_body]
pub struct ExCertKeyPair(rcgen::KeyPair);

#[verifier::external_type_specification]
#[verifier::external_body]
pub struct ExCertParams(rcgen::CertificateParams);

#[verifier::external_type_specification]
#[verifier::external_body]
pub struct ExCertificate(rcgen::Certificate);

#[verifier::external_type_specification]
#[verifier::external_body]
pub struct ExCertError(rcgen::Error);

#[verifier::external_type_specification]
#[verifier::external_body]
pub struct ExCertificateDer<'a>(rustls::pki_types::CertificateDer<'a>);

#[verifier::external_type_specification]
#[verifier::external_body]
pub struct ExPrivateKeyDer<'a>(rustls::pki_types::PrivateKeyDer<'a>);

#[verifier::external_type_specification]
#[verifier::external_body]
pub struct ExTlsError(rustls::Error);

#[verifier::external_type_specification]
#[verifier::external_body]
pub struct ExQuicServerConfig(quinn::ServerConfig);

#[verifier::external_type_specification]
#[verifier::external_body]
pub struct ExQuicTransportConfig(quinn::TransportConfig);

/// The name the server's certificate is issued for and the client connects to.
pub const SERVER_NAME: &'static str = "localhost";

/// Errors in building a transport configuration.
#[derive(Debug)]
pub enum TransportError {
    /// The certificate's key pair could not be generated.
    KeyGeneration(rcgen::Error),
    /// The certificate could not be signed.
    Signing(rcgen::Error),
    /// The key pair's DER encoding was not recognised as a private key.
    PrivateKey(&'static str),
    /// The TLS server configuration rejected the certificate or key.
    ServerConfig(rustls::Error),
}

/// The DER encodings of a key pair: its private key (PKCS#8) and its public
/// key (SubjectPublicKeyInfo).
pub uninterp spec fn key_pair_ders(key_pair: rcgen::KeyPair) -> (Seq<u8>, Seq<u8>);

/// What certificate parameters ask for: the subject alternative names, as
/// text, and whether the certificate may act as an authority.
pub uninterp spec fn params_request(params: rcgen::CertificateParams) -> (
    Seq<Seq<char>>,
    CertificateAuthority,
);

/// What a certificate is: its DER encoding, the subject alternative names
/// and authority status it was made from, and the public key (DER) it
/// certifies.
pub uninterp spec fn certificate_content(cert: rcgen::Certificate) -> (
    Seq<u8>,
    Seq<Seq<char>>,
    CertificateAuthority,
    Seq<u8>,
);

/// The DER bytes a private key holds.
pub uninterp spec fn private_key_bytes(key: rustls::pki_types::PrivateKeyDer<'static>) -> Seq<u8>;

/// The identity a QUIC server configuration presents: its certificate
/// chain (each certificate's DER) and the DER of the private key it signs
/// with.
pub uninterp spec fn served_identity(config: quinn::ServerConfig) -> (Seq<Seq<u8>>, Seq<u8>);

/// Whether a text could be an IP address literal: only hex digits, `.` and
/// `:`. Any other text is never parsed as an IP address.
pub open spec fn ip_like(s: Seq<char>) -> bool {
    forall|k: int|
        0 <= k < s.len() ==> {
            let c = #[trigger] s[k];
            ('0' <= c <= '9') || ('a' <= c <= 'f') || ('A' <= c <= 'F') || c == '.' || c == ':'
        }
}

/// The names as text.
pub open spec fn names_text(names: Seq<String>) -> Seq<Seq<char>> {
    names.map_values(|n: String| n@)
}

/// `rcgen::KeyPair::generate_for(&rcgen::PKCS_ED25519)`, a fresh random key
/// pair, handed back with its private key's DER encoding
/// (`KeyPair::serialize_der`, which panics only for a remote key pair; a
/// generated one never is). Whether generation succeeds rests on the
/// system's random source.
#[verifier::external_body]
fn generate_ed25519_key_pair() -> (r: Result<(rcgen::KeyPair, Vec<u8>), rcgen::Error>)
    ensures
        r matches Ok((key_pair, der)) ==> der@ == key_pair_ders(key_pair).0,
{
    let key_pair = rcgen::KeyPair::generate_for(&rcgen::PKCS_ED25519)?;
    let der = key_pair.serialize_der();
    Ok((key_pair, der))
}

/// `rcgen::CertificateParams::new` with the given subject alternative
/// names. A name that is no IP address must be ASCII (an IA5 string); that
/// is the only check, so with ASCII names it succeeds. A name that cannot be
/// an IP address is kept as a DNS name, unchanged; the parameters are no
/// certificate authority (rcgen's default).
#[verifier::external_body]
fn certificate_params(names: Vec<String>) -> (r: Result<rcgen::CertificateParams, rcgen::Error>)
    ensures
        (forall|i: int| 0 <= i < names@.len() ==> is_ascii_chars(#[trigger] names@[i]@)) ==> r is Ok,
        r matches Ok(params) ==> ({
            &&& (forall|i: int| 0 <= i < names@.len() ==> !ip_like(#[trigger] names@[i]@))
                ==> params_request(params).0 == names_text(names@)
            &&& params_request(params).1 == CertificateAuthority::NotCa
        }),
{
    rcgen::CertificateParams::new(names)
}

/// Whether a certificate may act as a certificate authority (rcgen's `IsCa`
/// without its constrained variant).
#[derive(Clone, Copy, Debug, PartialEq, Eq, Structural)]
pub enum CertificateAuthority {
    /// Not a certificate authority; the basic-constraints extension is left out.
    NotCa,
    /// Not a certificate authority, said so explicitly in the basic constraints.
    ExplicitNotCa,
}

/// What a certificate is issued for, as plain values.
pub struct CertificateRequest {
    /// Subject alternative names.
    pub subject_alt_names: Vec<String>,
    /// Whether the certificate may sign others.
    pub authority: CertificateAuthority,
}

/// The server's certificate request: issued for [`SERVER_NAME`] alone, and
/// no certificate authority.
pub fn server_certificate_request() -> (r: CertificateRequest)
    ensures
        r.subject_alt_names@.len() == 1,
        r.subject_alt_names@[0]@ == SERVER_NAME@,
        r.authority == CertificateAuthority::NotCa,
{
    let mut names: Vec<String> = Vec::new();
    names.push(SERVER_NAME.to_owned());
    CertificateRequest { subject_alt_names: names, authority: CertificateAuthority::NotCa }
}

/// Sets the `is_ca` field of `rcgen::CertificateParams` from the library's
/// choice, one variant for one; the names are left as they are.
#[verifier::external_body]
fn set_authority(params: &mut rcgen::CertificateParams, authority: CertificateAuthority)
    ensures
        params_request(*final(params)) == (params_request(*old(params)).0, authority),
{
    params.is_ca = match authority {
        CertificateAuthority::NotCa => rcgen::IsCa::NoCa,
        CertificateAuthority::ExplicitNotCa => rcgen::IsCa::ExplicitNoCa,
    };
}

/// `rcgen::CertificateParams::self_signed`: on success a certificate made
/// from the parameters, certifying the key pair's public key and signed
/// with the key pair. Whether signing succeeds is not promised.
#[verifier::external_body]
fn self_signed(
    params: rcgen::CertificateParams,
    key_pair: &rcgen::KeyPair,
) -> (r: Result<rcgen::Certificate, rcgen::Error>)
    ensures
        r matches Ok(cert) ==> ({
            let c = certificate_content(cert);
            &&& c.1 == params_request(params).0
            &&& c.2 == params_request(params).1
            &&& c.3 == key_pair_ders(*key_pair).1
        }),
{
    params.self_signed(key_pair)
}

/// `rcgen::Certificate::der`: the certificate's DER bytes.
#[verifier::external_body]
fn certificate_der(cert: &rcgen::Certificate) -> (r: Vec<u8>)
    ensures
        r@ == certificate_content(*cert).0,
{
    cert.der().to_vec()
}

/// `<rustls::pki_types::PrivateKeyDer as TryFrom<Vec<u8>>>::try_from`: on
/// success the key holds the given bytes (it only recognises their kind).
#[verifier::external_body]
fn private_key_der(
    der: Vec<u8>,
) -> (r: Result<rustls::pki_types::PrivateKeyDer<'static>, &'static str>)
    ensures
        r matches Ok(key) ==> private_key_bytes(key) == der@,
{
    rustls::pki_types::PrivateKeyDer::try_from(der)
}

/// `quinn::ServerConfig::with_single_cert` on the chain's DER bytes (each
/// turned into a `CertificateDer`): on success the configuration presents
/// that chain and signs with that key. Whether rustls accepts the key is not
/// promised.
#[verifier::external_body]
fn server_config_with_single_cert(
    chain: Vec<Vec<u8>>,
    key: rustls::pki_types::PrivateKeyDer<'static>,
) -> (r: Result<quinn::ServerConfig, rustls::Error>)
    ensures
        r matches Ok(config) ==> served_identity(config) == (
            chain@.map_values(|c: Vec<u8>| c@),
            private_key_bytes(key),
        ),
{
    quinn::ServerConfig::with_single_cert(chain.into_iter().map(Into::into).collect(), key)
}

/// `quinn::TransportConfig::default()`.
#[verifier::external_body]
fn default_transport_config() -> quinn::TransportConfig {
    quinn::TransportConfig::default()
}

/// `quinn::ServerConfig::transport_config`: replaces the transport
/// parameters; the identity is left as it is.
#[verifier::external_body]
fn set_server_transport(config: &mut quinn::ServerConfig, transport: Arc<quinn::TransportConfig>)
    ensures
        served_identity(*final(config)) == served_identity(*old(config)),
{
    config.transport_config(transport);
}

/// The server configuration: a new Ed25519 key pair, a certificate built from
/// [`server_certificate_request`] and self-signed with that key pair, the same
/// key pair as the server's private key, and default transport parameters.
/// Each step that rcgen, rustls or quinn can refuse reports its own error
/// variant; whether they refuse rests on the fresh key and is not promised.
pub fn make_server_config() -> (r: Result<quinn::ServerConfig, TransportError>)
    ensures
        r matches Ok(config) ==> exists|cert: rcgen::Certificate, key_pair: rcgen::KeyPair|
            #![trigger certificate_content(cert), key_pair_ders(key_pair)]
            {
                let c = certificate_content(cert);
                &&& served_identity(config).0 == seq![c.0]
                &&& c.1 == seq![SERVER_NAME@]
                &&& c.2 == CertificateAuthority::NotCa
                &&& c.3 == key_pair_ders(key_pair).1
                &&& served_identity(config).1 == key_pair_ders(key_pair).0
            },
{
    let (key_pair, key_pair_der) = match generate_ed25519_key_pair() {
        Ok(k) => k,
        Err(e) => return Err(TransportError::KeyGeneration(e)),
    };
    let request = server_certificate_request();
    proof {
        reveal_strlit("localhost");
        assert(is_ascii_chars(request.subject_alt_names@[0]@));
        assert(!ip_like(request.subject_alt_names@[0]@)) by {
            assert(request.subject_alt_names@[0]@[0] == 'l');
        }
    }
    let ghost names = request.subject_alt_names@;
    let mut params = certificate_params(request.subject_alt_names).unwrap();
    set_authority(&mut params, request.authority);
    let cert = match self_signed(params, &key_pair) {
        Ok(c) => c,
        Err(e) => return Err(TransportError::Signing(e)),
    };
    let cert_der = certificate_der(&cert);
    let key_der = match private_key_der(key_pair_der) {
        Ok(k) => k,
        Err(e) => return Err(TransportError::PrivateKey(e)),
    };
    let ghost cert_bytes = cert_der@;
    let mut chain: Vec<Vec<u8>> = Vec::new();
    chain.push(cert_der);
    let ghost chain_view = chain@;
    let mut server_config = match server_config_with_single_cert(chain, key_der) {
        Ok(c) => c,
        Err(e) => return Err(TransportError::ServerConfig(e)),
    };
    set_server_transport(&mut server_config, Arc::new(default_transport_config()));
    proof {
        assert(chain_view.map_values(|c: Vec<u8>| c@) =~= seq![cert_bytes]);
        assert(names_text(names) =~= seq![SERVER_NAME@]);
    }
    Ok(server_config)
}

} // verus!
