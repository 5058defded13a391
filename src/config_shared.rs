use vstd::prelude::*;
use crate::error::SamplyBeamError;
use crate::serial::{
    asn_str_to_vault_str, certificate_error, is_certificate_error_msg, serial_hex, serial_hex_of,
    vault_str,
};
use jwt_simple::prelude::RS256KeyPair;
use openssl::asn1::Asn1IntegerRef;
use openssl::x509::X509;
use rsa::pkcs1::DecodeRsaPrivateKey;
use rsa::pkcs8::DecodePrivateKey;
use rsa::RsaPrivateKey;

verus! {

#[verifier::external_type_specification]
#[verifier::external_body]
pub struct ExX509(X509);

#[verifier::external_type_specification]
#[verifier::external_body]
pub struct ExRsaPrivateKey(RsaPrivateKey);

#[verifier::external_type_specification]
#[verifier::external_body]
pub struct ExRS256KeyPair(RS256KeyPair);

/// Settings shared by every node: where extra CA certificates live, the
/// broker's domain and the root certificate of the PKI.
pub struct Config {
    pub tls_ca_certificates_dir: Option<String>,
    pub broker_domain: String,
    pub root_cert: X509,
}

/// A node's certificate as the directory hands it out, with its public key
/// in PEM form.
pub struct CryptoPublicPortion {
    pub beam_id: String,
    pub cert: X509,
    pub pem: String,
}

/// The cryptographic identity of this node: a signing key that carries the
/// formatted serial of the node's certificate as key id, the same private key
/// for decryption, and the node's public portion.
pub struct ConfigCrypto {
    pub privkey_rs256: RS256KeyPair,
    pub privkey_rsa: RsaPrivateKey,
    pub public: CryptoPublicPortion,
    pub key_id: String,
}

impl ConfigCrypto {
    /// The key id is the formatted serial of the node's own certificate, and
    /// the signing key carries it.
    pub open spec fn wf(&self) -> bool {
        &&& cert_serial_hex(&self.public.cert) is Some
        &&& self.key_id@ == vault_str(cert_serial_hex(&self.public.cert)->0)
        &&& rs256_key_id(&self.privkey_rs256) == Some(self.key_id@)
    }
}

/// The two readings of one private key: for decryption and for signing.
pub struct PrivateKeys {
    pub privkey_rsa: RsaPrivateKey,
    pub privkey_rs256: RS256KeyPair,
}

/// Whether the text is an RSA private key in PKCS#1 PEM encoding.
pub uninterp spec fn pkcs1_pem_parses(s: Seq<char>) -> bool;

/// Whether the text is a private key in PKCS#8 PEM encoding.
pub uninterp spec fn pkcs8_pem_parses(s: Seq<char>) -> bool;

/// Whether the text is an RSA private key that the signing library accepts.
pub uninterp spec fn rs256_pem_parses(s: Seq<char>) -> bool;

/// Whether `c` has the Unicode property White_Space.
pub open spec fn is_white_space(c: char) -> bool {
    let u = c as u32;
    ||| 0x09 <= u <= 0x0d
    ||| u == 0x20 || u == 0x85 || u == 0xa0 || u == 0x1680
    ||| 0x2000 <= u <= 0x200a
    ||| u == 0x2028 || u == 0x2029 || u == 0x202f || u == 0x205f || u == 0x3000
}

/// The text without its leading white space.
pub open spec fn trimmed_start(s: Seq<char>) -> Seq<char>
    decreases s.len(),
{
    if s.len() > 0 && is_white_space(s[0]) {
        trimmed_start(s.drop_first())
    } else {
        s
    }
}

/// The text without its trailing white space.
pub open spec fn trimmed_end(s: Seq<char>) -> Seq<char>
    decreases s.len(),
{
    if s.len() > 0 && is_white_space(s.last()) {
        trimmed_end(s.drop_last())
    } else {
        s
    }
}

/// The text without leading and trailing white space.
pub open spec fn trimmed(s: Seq<char>) -> Seq<char> {
    trimmed_end(trimmed_start(s))
}

/// Relies on `str::trim`: removes leading and trailing characters with the
/// Unicode property White_Space.
#[verifier::external_body]
fn trim_text(s: &str) -> (r: String)
    ensures
        r@ == trimmed(s@),
{
    s.trim().to_string()
}

/// Relies on rsa's `RsaPrivateKey::from_pkcs1_pem`: a key exactly when the
/// text decodes as PKCS#1, else the decoder's error text.
#[verifier::external_body]
fn rsa_from_pkcs1_pem(pem: &str) -> (r: Result<RsaPrivateKey, String>)
    ensures
        r is Ok <==> pkcs1_pem_parses(pem@),
{
    RsaPrivateKey::from_pkcs1_pem(pem).map_err(|e| e.to_string())
}

/// Relies on rsa's `RsaPrivateKey::from_pkcs8_pem`: a key exactly when the
/// text decodes as PKCS#8, else the decoder's error text.
#[verifier::external_body]
fn rsa_from_pkcs8_pem(pem: &str) -> (r: Result<RsaPrivateKey, String>)
    ensures
        r is Ok <==> pkcs8_pem_parses(pem@),
{
    RsaPrivateKey::from_pkcs8_pem(pem).map_err(|e| e.to_string())
}

/// Relies on jwt_simple's `RS256KeyPair::from_pem`: a signing key exactly
/// when the library accepts the text, else its error text.
#[verifier::external_body]
fn rs256_from_pem(pem: &str) -> (r: Result<RS256KeyPair, String>)
    ensures
        r is Ok <==> rs256_pem_parses(pem@),
{
    RS256KeyPair::from_pem(pem).map_err(|e| e.to_string())
}

/// The key id that a signing key reports through `RSAKeyPairLike::key_id`.
pub uninterp spec fn rs256_key_id(key: &RS256KeyPair) -> Option<Seq<char>>;

/// Relies on jwt_simple's `RS256KeyPair::with_key_id`: the same key, whose
/// key id is now the given text.
#[verifier::external_body]
fn rs256_with_key_id(key: RS256KeyPair, key_id: &str) -> (r: RS256KeyPair)
    ensures
        rs256_key_id(&r) == Some(key_id@),
{
    key.with_key_id(key_id)
}

/// The serial number of a certificate.
pub uninterp spec fn serial_of(cert: &X509) -> &Asn1IntegerRef;

/// Relies on openssl's `X509Ref::serial_number`: the certificate's serial,
/// the same for the same certificate.
#[verifier::external_body]
fn x509_serial_number(cert: &X509) -> (r: &Asn1IntegerRef)
    ensures
        r == serial_of(cert),
{
    cert.serial_number()
}

/// The hexadecimal digits of a certificate's serial, where OpenSSL reads it.
pub open spec fn cert_serial_hex(cert: &X509) -> Option<Seq<char>> {
    serial_hex_of(serial_of(cert))
}

} // verus!

verus! {

/// Guidance shown when the node's key is missing: how to enrol, naming the
/// node's id where it is known.
pub open spec fn enrollment_msg(proxy_id: Option<String>) -> Seq<char> {
    "If you are not yet enrolled in the central vault, please execute the beam-enrollment companion tool (https://github.com/samply/beam-enroll) "@
        + match proxy_id {
        Some(id) => "with the ProxyId "@ + id@,
        None => Seq::<char>::empty(),
    }
        + " and follow the steps on the screen.\nAfter your enrollment, please restart this Beam.Proxy, this message should dissapear."@
}

/// Whether the (trimmed) key text can be read both as a private key, in
/// PKCS#1 or else PKCS#8, and as a signing key.
pub open spec fn private_key_parses(t: Seq<char>) -> bool {
    (pkcs1_pem_parses(t) || pkcs8_pem_parses(t)) && rs256_pem_parses(t)
}

/// Builds the enrollment guidance for the given node id.
pub fn get_enrollment_msg(proxy_id: &Option<String>) -> (r: String)
    ensures
        r@ == enrollment_msg(*proxy_id),
{
    let mut m = String::from_str(
        "If you are not yet enrolled in the central vault, please execute the beam-enrollment companion tool (https://github.com/samply/beam-enroll) ",
    );
    match proxy_id {
        Some(id) => {
            m.append("with the ProxyId ");
            m.append(id.as_str());
        },
        None => {},
    }
    m.append(
        " and follow the steps on the screen.\nAfter your enrollment, please restart this Beam.Proxy, this message should dissapear.",
    );
    m
}

/// The error reported when the key file at `path` cannot be read for `cause`.
pub fn key_file_error(path: &str, cause: &str, proxy_id: &Option<String>) -> (r: SamplyBeamError)
    ensures
        match r {
            SamplyBeamError::ConfigurationFailed(m) => m@ == "Unable to load private key from file "@
                + path@ + ": "@ + cause@ + "\n"@ + enrollment_msg(*proxy_id),
            _ => false,
        },
{
    let mut m = String::from_str("Unable to load private key from file ");
    m.append(path);
    m.append(": ");
    m.append(cause);
    m.append("\n");
    let guide = get_enrollment_msg(proxy_id);
    m.append(guide.as_str());
    SamplyBeamError::ConfigurationFailed(m)
}

/// Whether `m` is the message of a key text in no supported format, for
/// some cause.
pub open spec fn is_key_format_error_msg(m: Seq<char>) -> bool {
    exists|cause: Seq<char>| m == "Unable to interpret private key PEM as PKCS#1 or PKCS#8: "@ + cause
}

/// The outcome of joining parsed keys with the directory's answer, as far as
/// it is decided by the answer and the certificate's serial.
pub open spec fn composed(
    keys: PrivateKeys,
    public: Option<CryptoPublicPortion>,
    r: Result<ConfigCrypto, SamplyBeamError>,
) -> bool {
    match public {
        None => match r {
            Err(SamplyBeamError::SignEncryptError(m)) => m@ == "Unable to parse your certificate."@,
            _ => false,
        },
        Some(p) => {
            &&& r is Ok <==> cert_serial_hex(&p.cert) is Some
            &&& match r {
                Ok(c) => {
                    &&& c.public == p
                    &&& c.privkey_rsa == keys.privkey_rsa
                    &&& c.wf()
                },
                Err(SamplyBeamError::SignEncryptError(m)) => is_certificate_error_msg(m@),
                Err(_) => false,
            }
        },
    }
}

/// The error reported when the key text is no supported private key.
pub fn key_format_error(cause: &str) -> (r: SamplyBeamError)
    ensures
        match r {
            SamplyBeamError::ConfigurationFailed(m) => m@
                == "Unable to interpret private key PEM as PKCS#1 or PKCS#8: "@ + cause@,
            _ => false,
        },
{
    let mut m = String::from_str("Unable to interpret private key PEM as PKCS#1 or PKCS#8: ");
    m.append(cause);
    SamplyBeamError::ConfigurationFailed(m)
}

/// Reads the text of a key file, trimmed, as a private key (PKCS#1, falling
/// back to PKCS#8) and, independently, as a signing key.
pub fn parse_private_key(privkey_pem: &str) -> (r: Result<PrivateKeys, SamplyBeamError>)
    ensures
        r is Ok <==> private_key_parses(trimmed(privkey_pem@)),
        match r {
            Ok(_) => true,
            Err(SamplyBeamError::ConfigurationFailed(m)) => is_key_format_error_msg(m@),
            Err(_) => false,
        },
{
    let pem = trim_text(privkey_pem);
    let privkey_rsa = match rsa_from_pkcs1_pem(pem.as_str()) {
        Ok(k) => k,
        Err(_) => match rsa_from_pkcs8_pem(pem.as_str()) {
            Ok(k) => k,
            Err(cause) => return Err(key_format_error(cause.as_str())),
        },
    };
    let privkey_rs256 = match rs256_from_pem(pem.as_str()) {
        Ok(k) => k,
        Err(cause) => return Err(key_format_error(cause.as_str())),
    };
    Ok(PrivateKeys { privkey_rsa, privkey_rs256 })
}

/// Joins the parsed private keys with the node's public portion from the
/// directory, tagging the signing key with the certificate's formatted serial.
pub fn compose_crypto(
    keys: PrivateKeys,
    public: Option<CryptoPublicPortion>,
) -> (r: Result<ConfigCrypto, SamplyBeamError>)
    ensures
        composed(keys, public, r),
{
    let public = match public {
        Some(p) => p,
        None => {
            return Err(
                SamplyBeamError::SignEncryptError(
                    String::from_str("Unable to parse your certificate."),
                ),
            )
        },
    };
    let serial = x509_serial_number(&public.cert);
    let key_id = match asn_str_to_vault_str(serial) {
        Ok(s) => s,
        Err(e) => return Err(e),
    };
    let privkey_rs256 = rs256_with_key_id(keys.privkey_rs256, key_id.as_str());
    Ok(ConfigCrypto { privkey_rs256, privkey_rsa: keys.privkey_rsa, public, key_id })
}

/// Bootstraps the node's identity from the text of its key file and the
/// directory's answer for the node's id. A node id must be present: without
/// one there is no identity to bootstrap.
pub fn load_crypto_for_proxy(
    privkey_pem: &str,
    proxy_id: &Option<String>,
    public: Option<CryptoPublicPortion>,
) -> (r: Result<ConfigCrypto, SamplyBeamError>)
    requires
        proxy_id is Some,
    ensures
        !private_key_parses(trimmed(privkey_pem@)) ==> match r {
            Err(SamplyBeamError::ConfigurationFailed(m)) => is_key_format_error_msg(m@),
            _ => false,
        },
        private_key_parses(trimmed(privkey_pem@)) ==> exists|keys: PrivateKeys|
            composed(keys, public, r),
{
    let keys = match parse_private_key(privkey_pem) {
        Ok(k) => k,
        Err(e) => return Err(e),
    };
    compose_crypto(keys, public)
}

} // verus!

verus! {

/// The place where the node's identity is published, at most once.
pub struct CryptoSlot {
    crypto: Option<ConfigCrypto>,
}

impl CryptoSlot {
    /// The identity published so far, if any.
    pub closed spec fn published(&self) -> Option<ConfigCrypto> {
        self.crypto
    }

    /// What the slot holds after a publish of `c`: `c` if it was empty,
    /// else what it held before.
    pub open spec fn after_set(self, c: ConfigCrypto) -> Option<ConfigCrypto> {
        if self.published() is None {
            Some(c)
        } else {
            self.published()
        }
    }

    /// An empty slot.
    pub fn new() -> (r: CryptoSlot)
        ensures
            r.published() is None,
    {
        CryptoSlot { crypto: None }
    }

    /// Publishes `c` if nothing was published yet; otherwise leaves the slot
    /// as it was and hands `c` back.
    pub fn set(&mut self, c: ConfigCrypto) -> (r: Result<(), ConfigCrypto>)
        ensures
            r is Ok <==> old(self).published() is None,
            final(self).published() == old(self).after_set(c),
            r is Err ==> r->Err_0 == c,
    {
        if self.crypto.is_some() {
            Err(c)
        } else {
            self.crypto = Some(c);
            Ok(())
        }
    }

    /// The published identity, read-only.
    pub fn get(&self) -> (r: Option<&ConfigCrypto>)
        ensures
            match r {
                Some(c) => self.published() == Some(*c),
                None => self.published() is None,
            },
    {
        match &self.crypto {
            Some(c) => Some(c),
            None => None,
        }
    }
}

/// Once an identity has been published, a later publish is refused (the
/// slot is no longer empty) and the published identity stays the first one.
pub proof fn lemma_publish_once(
    s0: CryptoSlot,
    s1: CryptoSlot,
    s2: CryptoSlot,
    first: ConfigCrypto,
    second: ConfigCrypto,
)
    requires
        s0.published() is None,
        s1.published() == s0.after_set(first),
        s2.published() == s1.after_set(second),
    ensures
        s1.published() == Some(first),
        s2.published() == Some(first),
{
}

} // verus!

verus! {

/// The first entry of a certificate's subject as UTF-8 text, or `None`
/// where the subject has no entry or its data is no UTF-8.
pub uninterp spec fn subject_entry_of(cert: &X509) -> Option<Seq<char>>;

/// Relies on openssl's `X509Ref::subject_name`, `X509NameRef::entries`,
/// `X509NameEntryRef::data` and `Asn1StringRef::as_utf8`: the first entry of
/// the certificate's subject as UTF-8 (`None` if the subject has no entry),
/// or OpenSSL's error text. The result depends on the certificate alone.
#[verifier::external_body]
fn first_subject_entry(cert: &X509) -> (r: Option<Result<String, String>>)
    ensures
        match r {
            Some(Ok(name)) => subject_entry_of(cert) == Some(name@),
            _ => subject_entry_of(cert) is None,
        },
{
    cert.subject_name().entries().next().map(
        |e| e.data().as_utf8().map(|s| s.to_string()).map_err(|e| e.to_string()),
    )
}

/// Publishes the node's identity into the empty `slot` and reports its
/// certificate's serial (hex digits) and the first entry of its subject.
/// Where either cannot be read, nothing is published.
pub fn publish_crypto(
    slot: &mut CryptoSlot,
    crypto: ConfigCrypto,
) -> (r: Result<(String, String), SamplyBeamError>)
    requires
        old(slot).published() is None,
    ensures
        r is Ok <==> cert_serial_hex(&crypto.public.cert) is Some && subject_entry_of(
            &crypto.public.cert,
        ) is Some,
        match r {
            Ok((serial, name)) => {
                &&& serial@ == cert_serial_hex(&crypto.public.cert)->0
                &&& name@ == subject_entry_of(&crypto.public.cert)->0
                &&& final(slot).published() == Some(crypto)
                &&& crypto.wf() ==> crypto.key_id@ == vault_str(serial@)
            },
            Err(SamplyBeamError::SignEncryptError(m)) => {
                &&& final(slot).published() is None
                &&& is_certificate_error_msg(m@)
            },
            Err(_) => false,
        },
{
    let serial = match serial_hex(x509_serial_number(&crypto.public.cert)) {
        Ok(hex) => hex,
        Err(cause) => return Err(certificate_error(cause.as_str())),
    };
    let cname = match first_subject_entry(&crypto.public.cert) {
        Some(Ok(name)) => name,
        Some(Err(cause)) => return Err(certificate_error(cause.as_str())),
        None => return Err(certificate_error("the subject has no entry")),
    };
    let _ = slot.set(crypto);
    Ok((serial, cname))
}

} // verus!

verus! {

/// Whether the bytes hold a certificate in PEM encoding.
pub uninterp spec fn x509_pem_parses(pem: Seq<u8>) -> bool;

/// Relies on openssl's `X509::from_pem`: a certificate exactly when the bytes
/// decode as a PEM certificate, else OpenSSL's error text.
#[verifier::external_body]
fn x509_from_pem(pem: &[u8]) -> (r: Result<X509, String>)
    requires
        pem@.len() <= i32::MAX,
    ensures
        r is Ok <==> x509_pem_parses(pem@),
{
    X509::from_pem(pem).map_err(|e| e.to_string())
}

/// Reads the PKI's root certificate from the PEM text of its file.
pub fn load_root_cert(pem: &[u8]) -> (r: Result<X509, SamplyBeamError>)
    ensures
        r is Ok <==> pem@.len() <= i32::MAX && x509_pem_parses(pem@),
        match r {
            Ok(_) => true,
            Err(SamplyBeamError::ConfigurationFailed(m)) => exists|cause: Seq<char>|
                m@ == "Unable to read the root certificate: "@ + cause,
            Err(_) => false,
        },
{
    let mut m = String::from_str("Unable to read the root certificate: ");
    if pem.len() > i32::MAX as usize {
        m.append("the file is too large");
        return Err(SamplyBeamError::ConfigurationFailed(m));
    }
    match x509_from_pem(pem) {
        Ok(cert) => Ok(cert),
        Err(cause) => {
            m.append(cause.as_str());
            Err(SamplyBeamError::ConfigurationFailed(m))
        },
    }
}

} // verus!
