use vstd::prelude::*;
use vstd::utf8::is_ascii_chars;
use rcgen::{CertificateParams, DistinguishedName, Issuer, KeyPair, SanType};
use time::OffsetDateTime;
use x509_parser::prelude::FromDer;

verus! {

/// rcgen's key pair, held opaque: the CA key in custody and each fresh leaf key.
#[verifier::external_type_specification]
#[verifier::external_body]
pub struct ExKeyPair(rcgen::KeyPair);

/// rcgen's subject name, held opaque while it is built.
#[verifier::external_type_specification]
#[verifier::external_body]
pub struct ExDistinguishedName(rcgen::DistinguishedName);

/// rcgen's subject alternative name entry, held opaque.
#[verifier::external_type_specification]
#[verifier::external_body]
pub struct ExSanType(rcgen::SanType);

/// rcgen's certificate parameters, held opaque while they are filled in.
#[verifier::external_type_specification]
#[verifier::external_body]
pub struct ExCertificateParams(rcgen::CertificateParams);

/// rcgen's issuer (CA subject and signing key), held opaque.
#[verifier::external_type_specification]
#[verifier::external_body]
#[verifier::reject_recursive_types(S)]
pub struct ExIssuer<'a, S>(rcgen::Issuer<'a, S>);

/// Earliest instant that a certificate can carry (0000-01-01T00:00:00Z): rcgen writes dates
/// before 1950 as GeneralizedTime, which holds only the years 0 to 9999.
pub const EARLIEST_INSTANT: i64 = -62167219200;

/// Latest instant that a certificate can carry (9999-12-31T23:59:59Z).
pub const LATEST_INSTANT: i64 = 253402300799;

/// Attribute types of a subject name, in the order a leaf certificate carries them.
#[derive(Debug, Clone, Copy, PartialEq, Eq, Structural)]
pub enum DnAttr {
    Country,
    Organization,
    OrganizationalUnit,
    CommonName,
}

/// Key usages that a leaf certificate may carry.
#[derive(Debug, Clone, Copy, PartialEq, Eq, Structural)]
pub enum KeyUsage {
    DigitalSignature,
    KeyEncipherment,
    KeyAgreement,
}

/// Extended key usages that a leaf certificate may carry.
#[derive(Debug, Clone, Copy, PartialEq, Eq, Structural)]
pub enum ExtendedUsage {
    ServerAuth,
    ClientAuth,
}

/// One subject alternative name: a DNS name, or an IP address as its octets.
pub ghost enum SanView {
    Dns(Seq<char>),
    Ip(Seq<u8>),
}

/// What certificate parameters hold: the subject attributes in order, the alternative names in
/// order, the key usages, the extended key usages, and whether the certificate is a CA.
pub ghost struct ParamsView {
    pub subject: Seq<(DnAttr, Seq<char>)>,
    pub alt_names: Seq<SanView>,
    pub key_usages: Seq<KeyUsage>,
    pub extended_usages: Seq<ExtendedUsage>,
    pub is_ca: bool,
}

/// What a DER certificate states of its subject: attributes in order, alternative names in
/// order, key usage bits, extended key usages in order, whether it is a CA, and its validity
/// window in Unix seconds.
pub ghost struct CertView {
    pub subject: Seq<(DnAttr, Seq<char>)>,
    pub alt_names: Seq<SanView>,
    pub key_usages: Set<KeyUsage>,
    pub extended_usages: Seq<ExtendedUsage>,
    pub is_ca: bool,
    pub not_before: int,
    pub not_after: int,
}

/// The certificate that parameters with this content give, signed for this window.
pub open spec fn signed_view(p: ParamsView, not_before: int, not_after: int) -> CertView {
    CertView {
        subject: p.subject,
        alt_names: p.alt_names,
        key_usages: p.key_usages.to_set(),
        extended_usages: p.extended_usages,
        is_ca: p.is_ca,
        not_before,
        not_after,
    }
}

/// What an rcgen subject name holds, in the order it writes them.
pub uninterp spec fn name_entries(dn: DistinguishedName) -> Seq<(DnAttr, Seq<char>)>;

/// What rcgen certificate parameters hold.
pub uninterp spec fn params_of(p: CertificateParams) -> ParamsView;

/// What an rcgen alternative name entry holds.
pub uninterp spec fn san_of(s: SanType) -> SanView;

/// The octets of the address that std parses from this literal.
pub uninterp spec fn ip_octets(s: Seq<char>) -> Seq<u8>;

/// What the DER certificate with these bytes states (see `CertView`).
pub uninterp spec fn cert_of(der: Seq<u8>) -> CertView;

/// Whether `rcgen::KeyPair::from_pem` accepts this text.
pub uninterp spec fn pem_key_accepted(s: Seq<char>) -> bool;

/// Contents of the first block that `pem::parse_many` finds in this text, if it parses.
pub uninterp spec fn first_pem_contents(s: Seq<char>) -> Option<Seq<u8>>;

/// First Country and first Organization attribute, as text, of the subject of the DER certificate.
pub uninterp spec fn ca_subject_of(der: Seq<u8>) -> (Option<Seq<char>>, Option<Seq<char>>);

/// Whether std parses this text as an IPv4 or IPv6 address literal.
pub uninterp spec fn ip_literal(s: Seq<char>) -> bool;

/// Relies on rcgen::KeyPair::from_pem: whether it parses depends on the text alone.
#[verifier::external_body]
pub(crate) fn parse_key_pem(s: &str) -> (r: Option<KeyPair>)
    ensures
        r is Some <==> pem_key_accepted(s@),
{
    KeyPair::from_pem(s).ok()
}

/// Relies on rcgen::KeyPair::generate: a fresh random key pair, or a failure.
#[verifier::external_body]
pub(crate) fn generate_key_pair() -> (r: Option<KeyPair>) {
    KeyPair::generate().ok()
}

/// Relies on rcgen::KeyPair::serialize_pem: PKCS#8 PEM text of the key pair.
#[verifier::external_body]
pub(crate) fn key_pair_pem(k: &KeyPair) -> (r: String) {
    k.serialize_pem()
}

/// Relies on pem::parse_many: the contents of the first PEM block of the text.
#[verifier::external_body]
pub(crate) fn first_pem_block(s: &str) -> (r: Option<Vec<u8>>)
    ensures
        r is Some <==> first_pem_contents(s@) is Some,
        r matches Some(d) ==> d@ == first_pem_contents(s@)->Some_0,
{
    pem::parse_many(s.as_bytes()).ok().and_then(|v| v.into_iter().next()).map(|p| p.contents().to_vec())
}

/// Relies on x509_parser's X509Certificate::from_der: the first Country and first Organization
/// attribute of the certificate's subject, where present and readable as text.
#[verifier::external_body]
pub(crate) fn ca_subject(der: &Vec<u8>) -> (r: (Option<String>, Option<String>))
    ensures
        r.0 is Some <==> ca_subject_of(der@).0 is Some,
        r.0 matches Some(c) ==> c@ == ca_subject_of(der@).0->Some_0,
        r.1 is Some <==> ca_subject_of(der@).1 is Some,
        r.1 matches Some(o) ==> o@ == ca_subject_of(der@).1->Some_0,
{
    let Ok((_, cert)) = x509_parser::certificate::X509Certificate::from_der(der.as_slice()) else {
        return (None, None);
    };
    let text = |a: &x509_parser::x509::AttributeTypeAndValue| a.as_str().ok().map(|s| s.to_string());
    let country = cert.subject().iter_country().next().and_then(text);
    let organization = cert.subject().iter_organization().next().and_then(text);
    (country, organization)
}

/// Relies on rcgen::DistinguishedName::new: an empty name.
#[verifier::external_body]
pub(crate) fn empty_name() -> (r: DistinguishedName)
    ensures
        name_entries(r).len() == 0,
{
    DistinguishedName::new()
}

/// Relies on rcgen::DistinguishedName::push: an attribute type not yet present is added after
/// the others, with the text as its value.
#[verifier::external_body]
pub(crate) fn push_name_attr(dn: &mut DistinguishedName, attr: DnAttr, value: &str)
    requires
        forall|i: int| 0 <= i < name_entries(*old(dn)).len() ==> name_entries(*old(dn))[i].0 != attr,
    ensures
        name_entries(*final(dn)) == name_entries(*old(dn)).push((attr, value@)),
{
    let ty = match attr {
        DnAttr::Country => rcgen::DnType::CountryName,
        DnAttr::Organization => rcgen::DnType::OrganizationName,
        DnAttr::OrganizationalUnit => rcgen::DnType::OrganizationalUnitName,
        DnAttr::CommonName => rcgen::DnType::CommonName,
    };
    dn.push(ty, value);
}

/// Relies on rcgen's `TryFrom<&str> for Ia5String`, which accepts exactly the ASCII texts.
#[verifier::external_body]
pub(crate) fn dns_name_entry(name: &str) -> (r: Option<SanType>)
    ensures
        r is Some <==> is_ascii_chars(name@),
        r matches Some(x) ==> san_of(x) == SanView::Dns(name@),
{
    rcgen::string::Ia5String::try_from(name).ok().map(SanType::DnsName)
}

/// Relies on std's `FromStr for IpAddr`: the entry exists exactly when the text is an address literal.
#[verifier::external_body]
pub(crate) fn ip_address_entry(s: &str) -> (r: Option<SanType>)
    ensures
        r is Some <==> ip_literal(s@),
        r matches Some(x) ==> san_of(x) == SanView::Ip(ip_octets(s@)),
{
    s.parse().ok().map(SanType::IpAddress)
}

/// Relies on rcgen::CertificateParams::default, with the subject and alternative names put in
/// its public fields; the default leaves `is_ca` at `IsCa::NoCa`, so the certificate is no CA.
#[verifier::external_body]
pub(crate) fn leaf_params(subject: DistinguishedName, alt_names: Vec<SanType>) -> (r: CertificateParams)
    ensures
        params_of(r) == (ParamsView {
            subject: name_entries(subject),
            alt_names: alt_names@.map_values(|x: SanType| san_of(x)),
            key_usages: Seq::empty(),
            extended_usages: Seq::empty(),
            is_ca: false,
        }),
{
    let mut p = CertificateParams::default();
    p.distinguished_name = subject;
    p.subject_alt_names = alt_names;
    p
}

/// Relies on rcgen::CertificateParams's public `key_usages` field, each usage as rcgen's.
#[verifier::external_body]
pub(crate) fn set_key_usages(p: &mut CertificateParams, usages: &Vec<KeyUsage>)
    ensures
        params_of(*final(p)) == (ParamsView { key_usages: usages@, ..params_of(*old(p)) }),
{
    p.key_usages = usages.iter().map(|u| match u {
        KeyUsage::DigitalSignature => rcgen::KeyUsagePurpose::DigitalSignature,
        KeyUsage::KeyEncipherment => rcgen::KeyUsagePurpose::KeyEncipherment,
        KeyUsage::KeyAgreement => rcgen::KeyUsagePurpose::KeyAgreement,
    }).collect();
}

/// Relies on rcgen::CertificateParams's public `extended_key_usages` field, each usage as rcgen's.
#[verifier::external_body]
pub(crate) fn set_extended_usages(p: &mut CertificateParams, usages: &Vec<ExtendedUsage>)
    ensures
        params_of(*final(p)) == (ParamsView { extended_usages: usages@, ..params_of(*old(p)) }),
{
    p.extended_key_usages = usages.iter().map(|u| match u {
        ExtendedUsage::ServerAuth => rcgen::ExtendedKeyUsagePurpose::ServerAuth,
        ExtendedUsage::ClientAuth => rcgen::ExtendedKeyUsagePurpose::ClientAuth,
    }).collect();
}

/// Relies on rcgen::Issuer::from_ca_cert_der: the issuer that a DER CA certificate and its key make.
#[verifier::external_body]
pub(crate) fn issuer_from_ca<'a>(der: &Vec<u8>, key: &'a KeyPair) -> (r: Option<Issuer<'a, &'a KeyPair>>) {
    Issuer::from_ca_cert_der(&rustls_pki_types::CertificateDer::from(der.as_slice()), key).ok()
}

/// Relies on time::OffsetDateTime::from_unix_timestamp for the window and on
/// rcgen::CertificateParams::signed_by: the DER certificate that the issuer signs, which states
/// the parameters' subject, alternative names, usages and CA flag, and the window. Both instants
/// lie in the years 0 to 9999, which rcgen can write (it panics on others).
#[verifier::external_body]
pub(crate) fn sign_with_issuer(
    params: &mut CertificateParams,
    not_before: i64,
    not_after: i64,
    leaf: &KeyPair,
    issuer: &Issuer<'_, &KeyPair>,
) -> (r: Option<Vec<u8>>)
    requires
        EARLIEST_INSTANT <= not_before <= not_after <= LATEST_INSTANT,
    ensures
        r matches Some(der) ==> cert_of(der@) == signed_view(params_of(*old(params)), not_before as int, not_after as int),
{
    params.not_before = OffsetDateTime::from_unix_timestamp(not_before).ok()?;
    params.not_after = OffsetDateTime::from_unix_timestamp(not_after).ok()?;
    params.signed_by(leaf, issuer).ok().map(|c| c.der().to_vec())
}

/// Relies on pem::encode: the DER bytes as a `CERTIFICATE` PEM block, whose contents
/// pem::parse_many reads back.
#[verifier::external_body]
pub(crate) fn certificate_pem(der: Vec<u8>) -> (r: String)
    ensures
        first_pem_contents(r@) == Some(der@),
{
    pem::encode(&pem::Pem::new("CERTIFICATE", der))
}

} // verus!
