use vstd::prelude::*;
use dashmap::DashMap;
use rcgen::{KeyPair, SanType};
use crate::custody::{decode_ca_secret, decode_secret, CaError, SecretFetch};
use crate::fields::{texts, FieldMap};
use crate::text::{is_dns_name, valid_dns_name};
use crate::pki::{
    ca_subject, ca_subject_of, cert_of, certificate_pem, ip_octets, name_entries, san_of, CertView, SanView, first_pem_contents, ip_literal, EARLIEST_INSTANT, LATEST_INSTANT, dns_name_entry, empty_name, first_pem_block, generate_key_pair,
    ip_address_entry, issuer_from_ca, key_pair_pem, leaf_params, parse_key_pem, pem_key_accepted,
    push_name_attr, set_extended_usages, set_key_usages, sign_with_issuer, DnAttr,
    ExtendedUsage, KeyUsage,
};

verus! {

/// Seconds in one fixed-length day.
pub const SECONDS_PER_DAY: i64 = 86400;

/// Why one signing request failed.
#[derive(Debug, Clone, Copy, PartialEq, Eq, Structural)]
pub enum IssueError {
    /// Malformed input: a non-positive or too long validity, or a malformed DNS name.
    InvalidArgument,
    /// No CA material is held.
    CaNotLoaded,
    /// The held CA certificate cannot be read.
    CaParseError,
    /// No fresh key pair could be made.
    KeyGenerationError,
    /// The leaf could not be signed.
    SigningError,
}

/// Why a call of the issuance protocol failed.
#[derive(Debug, Clone, Copy, PartialEq, Eq, Structural)]
pub enum ServiceError {
    /// No certificate is registered under the id.
    NotFound,
    /// Signing failed.
    Issue(IssueError),
}

pub open spec fn unit_separator() -> Seq<char> {
    seq![' ', '+', ' ']
}

/// The organizational units as one attribute value, separated by `" + "`.
pub open spec fn joined(units: Seq<Seq<char>>) -> Seq<char>
    decreases units.len(),
{
    if units.len() == 0 {
        Seq::empty()
    } else if units.len() == 1 {
        units[0]
    } else {
        joined(units.drop_last()) + unit_separator() + units.last()
    }
}

pub open spec fn default_country() -> Seq<char> {
    seq!['D', 'K']
}

pub open spec fn default_organization() -> Seq<char> {
    seq!['A', 'k', 'u', 'z', 'o']
}

/// The subject of a leaf: Country, Organization, the joined units if there are any, CommonName.
pub open spec fn subject_spec(
    country: Seq<char>,
    organization: Seq<char>,
    units: Seq<Seq<char>>,
    common_name: Seq<char>,
) -> Seq<(DnAttr, Seq<char>)> {
    if units.len() == 0 {
        seq![(DnAttr::Country, country), (DnAttr::Organization, organization), (DnAttr::CommonName, common_name)]
    } else {
        seq![
            (DnAttr::Country, country),
            (DnAttr::Organization, organization),
            (DnAttr::OrganizationalUnit, joined(units)),
            (DnAttr::CommonName, common_name),
        ]
    }
}

pub open spec fn attrs_view(v: Seq<(DnAttr, String)>) -> Seq<(DnAttr, Seq<char>)> {
    v.map_values(|a: (DnAttr, String)| (a.0, a.1@))
}

/// A validity of `days` fixed-length days from `now` is positive and stays within what a
/// certificate can carry.
pub open spec fn window_ok(now: int, days: int) -> bool {
    &&& days > 0
    &&& EARLIEST_INSTANT <= now
    &&& now + days * SECONDS_PER_DAY <= LATEST_INSTANT
}

/// The failure that custody and the request's own values decide, checked in this order.
pub open spec fn precheck(loaded: bool, dns_names: Seq<Seq<char>>, days: int, now: int) -> Option<IssueError> {
    if !loaded {
        Some(IssueError::CaNotLoaded)
    } else if !window_ok(now, days) {
        Some(IssueError::InvalidArgument)
    } else if exists|i: int| 0 <= i < dns_names.len() && !valid_dns_name(#[trigger] dns_names[i]) {
        Some(IssueError::InvalidArgument)
    } else {
        None
    }
}

/// Failures that only the CA material, the key generator or the signer decide.
pub open spec fn outside_failure(e: IssueError) -> bool {
    e == IssueError::CaParseError || e == IssueError::KeyGenerationError || e == IssueError::SigningError
}

/// Joins organizational units with `" + "` into one value.
pub fn join_units(units: &Vec<String>) -> (r: String)
    ensures
        r@ == joined(texts(units@)),
{
    let ghost u = texts(units@);
    let mut out = String::new();
    let mut i: usize = 0;
    let sep = " + ";
    proof {
        reveal_strlit(" + ");
    }
    assert(sep@ =~= unit_separator());
    while i < units.len()
        invariant
            i <= units.len(),
            u == texts(units@),
            sep@ == unit_separator(),
            out@ == joined(u.take(i as int)),
        decreases units.len() - i,
    {
        assert(u.take(i + 1).drop_last() =~= u.take(i as int));
        if i > 0 {
            out.append(sep);
        } else {
            assert(out@ + u[0] =~= u[0]);
        }
        out.append(units[i].as_str());
        i = i + 1;
    }
    assert(u.take(units.len() as int) =~= u);
    out
}

/// The subject attributes of a leaf, in order.
pub fn subject_attributes(country: &str, organization: &str, units: &Vec<String>, common_name: &str) -> (r: Vec<(
    DnAttr,
    String,
)>)
    ensures
        attrs_view(r@) == subject_spec(country@, organization@, texts(units@), common_name@),
{
    let mut r: Vec<(DnAttr, String)> = Vec::new();
    r.push((DnAttr::Country, String::from_str(country)));
    r.push((DnAttr::Organization, String::from_str(organization)));
    if units.len() > 0 {
        r.push((DnAttr::OrganizationalUnit, join_units(units)));
    }
    r.push((DnAttr::CommonName, String::from_str(common_name)));
    assert(attrs_view(r@) =~= subject_spec(country@, organization@, texts(units@), common_name@));
    r
}

/// The key usages of every leaf.
pub fn leaf_key_usages() -> (r: Vec<KeyUsage>)
    ensures
        r@ == seq![KeyUsage::DigitalSignature, KeyUsage::KeyEncipherment, KeyUsage::KeyAgreement],
{
    let mut r: Vec<KeyUsage> = Vec::new();
    r.push(KeyUsage::DigitalSignature);
    r.push(KeyUsage::KeyEncipherment);
    r.push(KeyUsage::KeyAgreement);
    assert(r@ =~= seq![KeyUsage::DigitalSignature, KeyUsage::KeyEncipherment, KeyUsage::KeyAgreement]);
    r
}

/// The extended key usages of every leaf.
pub fn leaf_extended_usages() -> (r: Vec<ExtendedUsage>)
    ensures
        r@ == seq![ExtendedUsage::ServerAuth, ExtendedUsage::ClientAuth],
{
    let mut r: Vec<ExtendedUsage> = Vec::new();
    r.push(ExtendedUsage::ServerAuth);
    r.push(ExtendedUsage::ClientAuth);
    assert(r@ =~= seq![ExtendedUsage::ServerAuth, ExtendedUsage::ClientAuth]);
    r
}

/// The window `(now, now + days × 24h)`, if it is valid.
pub fn validity_window(now: i64, days: i64) -> (r: Option<(i64, i64)>)
    ensures
        r is Some <==> window_ok(now as int, days as int),
        r matches Some(w) ==> w.0 == now && w.1 == now + days * SECONDS_PER_DAY,
{
    if days <= 0 || now < EARLIEST_INSTANT || now > LATEST_INSTANT {
        return None;
    }
    let q: i64 = (LATEST_INSTANT - now) / SECONDS_PER_DAY;
    let ghost span: int = LATEST_INSTANT - now;
    assert(q as int == span / 86400);
    if days > q {
        proof {
            assert(days * 86400 > span) by (nonlinear_arith)
                requires
                    days as int > q as int,
                    q as int == span / 86400,
                    span >= 0,
            ;
        }
        return None;
    }
    proof {
        assert(days * 86400 <= span) by (nonlinear_arith)
            requires
                days as int <= q as int,
                q as int == span / 86400,
                span >= 0,
        ;
    }
    Some((now, now + days * SECONDS_PER_DAY))
}

/// What a leaf certificate holds, as plain values; exactly this is handed to the signer.
pub struct LeafRequest {
    /// Subject attributes, in order.
    pub subject: Vec<(DnAttr, String)>,
    /// DNS alternative names, in order.
    pub dns_names: Vec<String>,
    /// IP alternative names, in order: the given texts that are address literals.
    pub ip_addresses: Vec<String>,
    pub not_before: i64,
    pub not_after: i64,
    pub key_usages: Vec<KeyUsage>,
    pub extended_usages: Vec<ExtendedUsage>,
}

pub ghost struct LeafView {
    pub subject: Seq<(DnAttr, Seq<char>)>,
    pub dns_names: Seq<Seq<char>>,
    pub ip_addresses: Seq<Seq<char>>,
    pub not_before: int,
    pub not_after: int,
    pub key_usages: Seq<KeyUsage>,
    pub extended_usages: Seq<ExtendedUsage>,
}

impl View for LeafRequest {
    type V = LeafView;

    open spec fn view(&self) -> LeafView {
        LeafView {
            subject: attrs_view(self.subject@),
            dns_names: texts(self.dns_names@),
            ip_addresses: texts(self.ip_addresses@),
            not_before: self.not_before as int,
            not_after: self.not_after as int,
            key_usages: self.key_usages@,
            extended_usages: self.extended_usages@,
        }
    }
}

pub open spec fn or_default(v: Option<Seq<char>>, d: Seq<char>) -> Seq<char> {
    match v {
        Some(x) => x,
        None => d,
    }
}

pub open spec fn opt_text(v: Option<String>) -> Option<Seq<char>> {
    match v {
        Some(x) => Some(x@),
        None => None,
    }
}

/// The texts that are IP address literals, in order; the others are dropped.
pub open spec fn kept_addresses(ips: Seq<Seq<char>>) -> Seq<Seq<char>>
    decreases ips.len(),
{
    if ips.len() == 0 {
        Seq::empty()
    } else if ip_literal(ips.last()) {
        kept_addresses(ips.drop_last()).push(ips.last())
    } else {
        kept_addresses(ips.drop_last())
    }
}

/// The leaf for a subject under a CA whose subject has these Country and Organization values.
pub open spec fn leaf_spec(
    ca: (Option<Seq<char>>, Option<Seq<char>>),
    common_name: Seq<char>,
    dns_names: Seq<Seq<char>>,
    ip_addresses: Seq<Seq<char>>,
    units: Seq<Seq<char>>,
    not_before: int,
    not_after: int,
) -> LeafView {
    LeafView {
        subject: subject_spec(
            or_default(ca.0, default_country()),
            or_default(ca.1, default_organization()),
            units,
            common_name,
        ),
        dns_names,
        ip_addresses: kept_addresses(ip_addresses),
        not_before,
        not_after,
        key_usages: seq![KeyUsage::DigitalSignature, KeyUsage::KeyEncipherment, KeyUsage::KeyAgreement],
        extended_usages: seq![ExtendedUsage::ServerAuth, ExtendedUsage::ClientAuth],
    }
}

/// The leaf signed under the CA certificate text `held`.
pub open spec fn signed_leaf(
    held: Seq<char>,
    common_name: Seq<char>,
    dns_names: Seq<Seq<char>>,
    ip_addresses: Seq<Seq<char>>,
    units: Seq<Seq<char>>,
    not_before: int,
    not_after: int,
) -> LeafView {
    leaf_spec(
        ca_subject_of(first_pem_contents(held)->Some_0),
        common_name,
        dns_names,
        ip_addresses,
        units,
        not_before,
        not_after,
    )
}

fn copy_texts(v: &Vec<String>) -> (r: Vec<String>)
    ensures
        texts(r@) == texts(v@),
{
    let mut r: Vec<String> = Vec::new();
    let mut i: usize = 0;
    while i < v.len()
        invariant
            i <= v.len(),
            texts(r@) == texts(v@).take(i as int),
        decreases v.len() - i,
    {
        let ghost before = r@;
        r.push(v[i].clone());
        assert(texts(r@) =~= texts(before).push(v@[i as int]@));
        assert(texts(v@).take(i + 1) =~= texts(v@).take(i as int).push(v@[i as int]@));
        i = i + 1;
    }
    assert(texts(v@).take(v.len() as int) =~= texts(v@));
    r
}

/// The texts that are IP address literals, in order.
fn keep_addresses(ips: &Vec<String>) -> (r: Vec<String>)
    ensures
        texts(r@) == kept_addresses(texts(ips@)),
{
    let ghost t = texts(ips@);
    let mut r: Vec<String> = Vec::new();
    let mut i: usize = 0;
    while i < ips.len()
        invariant
            i <= ips.len(),
            t == texts(ips@),
            texts(r@) == kept_addresses(t.take(i as int)),
        decreases ips.len() - i,
    {
        assert(t.take(i + 1).drop_last() =~= t.take(i as int));
        let ghost before = r@;
        if ip_address_entry(ips[i].as_str()).is_some() {
            r.push(ips[i].clone());
            assert(texts(r@) =~= texts(before).push(t[i as int]));
        }
        i = i + 1;
    }
    assert(t.take(ips.len() as int) =~= t);
    r
}

/// The leaf to sign, with the CA subject's Country and Organization (or the defaults).
pub fn leaf_request(
    ca_country: Option<String>,
    ca_organization: Option<String>,
    common_name: &str,
    dns_names: &Vec<String>,
    ip_addresses: &Vec<String>,
    units: &Vec<String>,
    not_before: i64,
    not_after: i64,
) -> (r: LeafRequest)
    ensures
        r@ == leaf_spec(
            (opt_text(ca_country), opt_text(ca_organization)),
            common_name@,
            texts(dns_names@),
            texts(ip_addresses@),
            texts(units@),
            not_before as int,
            not_after as int,
        ),
{
    let country = match ca_country {
        Some(c) => c,
        None => String::from_str("DK"),
    };
    let organization = match ca_organization {
        Some(o) => o,
        None => String::from_str("Akuzo"),
    };
    proof {
        reveal_strlit("DK");
        reveal_strlit("Akuzo");
    }
    assert(country@ == or_default(opt_text(ca_country), default_country()));
    assert(organization@ == or_default(opt_text(ca_organization), default_organization()));
    LeafRequest {
        subject: subject_attributes(country.as_str(), organization.as_str(), units, common_name),
        dns_names: copy_texts(dns_names),
        ip_addresses: keep_addresses(ip_addresses),
        not_before,
        not_after,
        key_usages: leaf_key_usages(),
        extended_usages: leaf_extended_usages(),
    }
}

/// The subject attribute types are pairwise distinct.
pub open spec fn distinct_attrs(s: Seq<(DnAttr, Seq<char>)>) -> bool {
    forall|i: int, j: int| 0 <= i < j < s.len() ==> s[i].0 != s[j].0
}

pub open spec fn dns_view(d: Seq<char>) -> SanView {
    SanView::Dns(d)
}

pub open spec fn ip_view(t: Seq<char>) -> SanView {
    SanView::Ip(ip_octets(t))
}

/// What the certificate signed for this leaf states: its subject, its DNS names then its IP
/// addresses, its usages, no CA, and its window.
pub open spec fn cert_of_leaf(l: LeafView) -> CertView {
    CertView {
        subject: l.subject,
        alt_names: l.dns_names.map_values(|d: Seq<char>| dns_view(d)) + l.ip_addresses.map_values(
            |t: Seq<char>| ip_view(t),
        ),
        key_usages: l.key_usages.to_set(),
        extended_usages: l.extended_usages,
        is_ca: false,
        not_before: l.not_before,
        not_after: l.not_after,
    }
}

/// Signs the leaf with a fresh key under the CA; the certificate states exactly the request.
fn sign_leaf(request: &LeafRequest, ca_der: &Vec<u8>, ca_key: &KeyPair, leaf_key: &KeyPair) -> (r: Result<
    Vec<u8>,
    IssueError,
>)
    requires
        EARLIEST_INSTANT <= request.not_before <= request.not_after <= LATEST_INSTANT,
        distinct_attrs(request@.subject),
    ensures
        r matches Err(e) ==> outside_failure(e),
        r matches Ok(der) ==> cert_of(der@) == cert_of_leaf(request@),
{
    let ghost want = request@;
    let mut subject = empty_name();
    let mut k: usize = 0;
    while k < request.subject.len()
        invariant
            k <= request.subject.len(),
            want == request@,
            distinct_attrs(want.subject),
            name_entries(subject) == want.subject.take(k as int),
        decreases request.subject.len() - k,
    {
        assert(want.subject[k as int] == (request.subject@[k as int].0, request.subject@[k as int].1@));
        push_name_attr(&mut subject, request.subject[k].0, request.subject[k].1.as_str());
        assert(want.subject.take(k + 1) =~= want.subject.take(k as int).push(want.subject[k as int]));
        k = k + 1;
    }
    assert(want.subject.take(request.subject.len() as int) =~= want.subject);
    let mut alt_names: Vec<SanType> = Vec::new();
    let mut i: usize = 0;
    while i < request.dns_names.len()
        invariant
            i <= request.dns_names.len(),
            want == request@,
            alt_names@.map_values(|x: SanType| san_of(x)) == want.dns_names.take(i as int).map_values(
                |d: Seq<char>| dns_view(d),
            ),
        decreases request.dns_names.len() - i,
    {
        match dns_name_entry(request.dns_names[i].as_str()) {
            Some(san) => {
                let ghost before = alt_names@;
                alt_names.push(san);
                assert(alt_names@.map_values(|x: SanType| san_of(x)) =~= before.map_values(|x: SanType| san_of(x)).push(
                    dns_view(want.dns_names[i as int]),
                ));
                assert(want.dns_names.take(i + 1).map_values(|d: Seq<char>| dns_view(d)) =~= want.dns_names.take(
                    i as int,
                ).map_values(|d: Seq<char>| dns_view(d)).push(dns_view(want.dns_names[i as int])));
            },
            None => {
                return Err(IssueError::SigningError);
            },
        }
        i = i + 1;
    }
    assert(want.dns_names.take(request.dns_names.len() as int) =~= want.dns_names);
    let ghost dns_part = want.dns_names.map_values(|d: Seq<char>| dns_view(d));
    let mut j: usize = 0;
    assert(dns_part + want.ip_addresses.take(0).map_values(|t: Seq<char>| ip_view(t)) =~= dns_part);
    while j < request.ip_addresses.len()
        invariant
            j <= request.ip_addresses.len(),
            want == request@,
            dns_part == want.dns_names.map_values(|d: Seq<char>| dns_view(d)),
            alt_names@.map_values(|x: SanType| san_of(x)) == dns_part + want.ip_addresses.take(j as int).map_values(
                |t: Seq<char>| ip_view(t),
            ),
        decreases request.ip_addresses.len() - j,
    {
        match ip_address_entry(request.ip_addresses[j].as_str()) {
            Some(san) => {
                let ghost before = alt_names@;
                alt_names.push(san);
                assert(alt_names@.map_values(|x: SanType| san_of(x)) =~= before.map_values(|x: SanType| san_of(x)).push(
                    ip_view(want.ip_addresses[j as int]),
                ));
                assert(dns_part + want.ip_addresses.take(j + 1).map_values(|t: Seq<char>| ip_view(t)) =~= (dns_part
                    + want.ip_addresses.take(j as int).map_values(|t: Seq<char>| ip_view(t))).push(
                    ip_view(want.ip_addresses[j as int]),
                ));
            },
            None => {
                return Err(IssueError::SigningError);
            },
        }
        j = j + 1;
    }
    assert(want.ip_addresses.take(request.ip_addresses.len() as int) =~= want.ip_addresses);
    let mut params = leaf_params(subject, alt_names);
    set_key_usages(&mut params, &request.key_usages);
    set_extended_usages(&mut params, &request.extended_usages);
    let issuer = match issuer_from_ca(ca_der, ca_key) {
        Some(i) => i,
        None => {
            return Err(IssueError::CaParseError);
        },
    };
    match sign_with_issuer(&mut params, request.not_before, request.not_after, leaf_key, &issuer) {
        Some(d) => {
            assert(cert_of(d@) =~= cert_of_leaf(want));
            Ok(d)
        },
        None => Err(IssueError::SigningError),
    }
}

/// A signed leaf: PEM certificate (the leaf alone), PEM private key, its validity window (Unix
/// seconds) and what was signed.
pub struct IssuedCertificate {
    pub certificate_pem: String,
    pub private_key_pem: String,
    pub not_before: i64,
    pub not_after: i64,
    pub leaf: LeafRequest,
}

/// The CA material in custody: certificate text and its parsed private key.
pub struct CaMaterial {
    pub certificate_pem: String,
    pub key: KeyPair,
}

/// One issued certificate as the issuing side records it.
#[derive(Clone)]
pub struct CertificateRecord {
    pub certificate_id: String,
    pub common_name: String,
    pub dns_names: Vec<String>,
    pub organizational_units: Vec<String>,
    pub not_before: i64,
    pub not_after: i64,
    pub metadata: FieldMap,
}

pub ghost struct RecordView {
    pub certificate_id: Seq<char>,
    pub common_name: Seq<char>,
    pub dns_names: Seq<Seq<char>>,
    pub organizational_units: Seq<Seq<char>>,
    pub not_before: i64,
    pub not_after: i64,
    pub metadata: Map<Seq<char>, Seq<char>>,
}

impl View for CertificateRecord {
    type V = RecordView;

    open spec fn view(&self) -> RecordView {
        RecordView {
            certificate_id: self.certificate_id@,
            common_name: self.common_name@,
            dns_names: texts(self.dns_names@),
            organizational_units: texts(self.organizational_units@),
            not_before: self.not_before,
            not_after: self.not_after,
            metadata: self.metadata@,
        }
    }
}

/// The record with a new validity window and every other field kept.
pub open spec fn with_window(v: RecordView, not_before: i64, not_after: i64) -> RecordView {
    RecordView { not_before, not_after, ..v }
}

/// The issuing side's registry, keyed by certificate id.
pub type RecordMap = DashMap<String, CertificateRecord>;

/// What the issuing side's registry holds, by certificate id.
pub uninterp spec fn record_entries(m: RecordMap) -> Map<Seq<char>, RecordView>;

pub open spec fn no_records() -> Map<Seq<char>, RecordView> {
    Map::empty()
}

/// Relies on dashmap::DashMap::new: an empty map.
#[verifier::external_body]
fn new_record_map() -> (r: RecordMap)
    ensures
        record_entries(r) == no_records(),
{
    DashMap::new()
}

/// Relies on dashmap::DashMap::insert: inserts or replaces the entry of the key.
#[verifier::external_body]
fn record_map_insert(m: &mut RecordMap, k: String, v: CertificateRecord)
    ensures
        record_entries(*final(m)) == record_entries(*old(m)).insert(k@, v@),
{
    m.insert(k, v);
}

/// Relies on dashmap::DashMap::remove: removes the entry of the key, if any.
#[verifier::external_body]
fn record_map_remove(m: &mut RecordMap, k: &String)
    ensures
        record_entries(*final(m)) == record_entries(*old(m)).remove(k@),
{
    m.remove(k);
}

/// Relies on dashmap::DashMap::get: a copy of the entry of the key, if any.
#[verifier::external_body]
fn record_map_get(m: &RecordMap, k: &String) -> (r: Option<CertificateRecord>)
    ensures
        r is Some <==> record_entries(*m).contains_key(k@),
        r matches Some(v) ==> v@ == record_entries(*m)[k@],
{
    m.get(k).map(|e| e.value().clone())
}

/// A request to issue a certificate.
pub struct IssueCertificateRequest {
    pub certificate_id: String,
    pub common_name: String,
    pub dns_names: Vec<String>,
    pub ip_addresses: Vec<String>,
    pub organizational_units: Vec<String>,
    pub validity_days: i64,
    pub metadata: FieldMap,
}

pub struct IssueCertificateResponse {
    pub certificate_id: String,
    pub certificate_pem: String,
    pub private_key_pem: String,
    pub not_before: i64,
    pub not_after: i64,
    /// What was signed.
    pub leaf: LeafRequest,
}

pub struct CertificateInfoResponse {
    pub certificate_id: String,
    pub common_name: String,
    pub dns_names: Vec<String>,
    pub not_before: i64,
    pub not_after: i64,
    pub is_valid: bool,
    pub metadata: FieldMap,
}

/// The issuing side: CA custody, signing, and the registry of issued certificates.
pub struct CertificateServiceImpl {
    ca_secret_name: String,
    ca_secret_namespace: String,
    ca: Option<CaMaterial>,
    certificates: RecordMap,
}

impl CertificateServiceImpl {
    pub closed spec fn entries(&self) -> Map<Seq<char>, RecordView> {
        record_entries(self.certificates)
    }

    /// The registry holds finitely many records.
    pub open spec fn wf(&self) -> bool {
        self.entries().dom().finite()
    }

    pub closed spec fn loaded(&self) -> bool {
        self.ca is Some
    }

    /// The CA certificate text held, if any.
    pub closed spec fn held_certificate(&self) -> Option<Seq<char>> {
        match self.ca {
            Some(c) => Some(c.certificate_pem@),
            None => None,
        }
    }

    pub closed spec fn custody(&self) -> Option<CaMaterial> {
        self.ca
    }

    pub closed spec fn source(&self) -> (Seq<char>, Seq<char>) {
        (self.ca_secret_name@, self.ca_secret_namespace@)
    }

    /// A service with an empty registry, loaded from what was fetched of the CA secret.
    pub fn new(ca_secret_name: String, ca_secret_namespace: String, fetched: SecretFetch) -> (r: Result<
        CertificateServiceImpl,
        CaError,
    >)
        ensures
            r is Ok <==> secret_accepted(fetched),
            r matches Ok(s) ==> s.wf() && s.entries() == no_records() && s.loaded() && s.held_certificate()
                == Some(decode_secret(fetched)->Ok_0.0) && s.source() == (ca_secret_name@, ca_secret_namespace@),
            r matches Err(e) ==> load_failure(fetched) == Some(e),
    {
        let mut service = CertificateServiceImpl {
            ca_secret_name,
            ca_secret_namespace,
            ca: None,
            certificates: new_record_map(),
        };
        match service.load_ca(&fetched) {
            Ok(()) => Ok(service),
            Err(e) => Err(e),
        }
    }

    pub fn ca_secret_name(&self) -> (r: &String)
        ensures
            r@ == self.source().0,
    {
        &self.ca_secret_name
    }

    pub fn ca_secret_namespace(&self) -> (r: &String)
        ensures
            r@ == self.source().1,
    {
        &self.ca_secret_namespace
    }

    /// Parses the fetched material and swaps it in whole; on failure custody stays as it was.
    fn load_ca(&mut self, fetched: &SecretFetch) -> (r: Result<(), CaError>)
        requires
            old(self).wf(),
        ensures
            final(self).wf(),
            r is Ok <==> secret_accepted(*fetched),
            r matches Err(e) ==> load_failure(*fetched) == Some(e),
            r is Ok ==> final(self).loaded() && final(self).held_certificate() == Some(decode_secret(*fetched)->Ok_0.0),
            r is Err ==> final(self).custody() == old(self).custody(),
            final(self).entries() == old(self).entries(),
            final(self).source() == old(self).source(),
    {
        let (cert, key_text) = match decode_ca_secret(fetched) {
            Ok(pair) => pair,
            Err(e) => {
                return Err(e);
            },
        };
        let key = match parse_key_pem(key_text.as_str()) {
            Some(k) => k,
            None => {
                return Err(CaError::KeyParseError);
            },
        };
        self.ca = Some(CaMaterial { certificate_pem: cert, key });
        Ok(())
    }

    /// Loads the CA secret again, as fetched anew; a failed reload keeps the material held before.
    pub fn reload_ca(&mut self, fetched: SecretFetch) -> (r: Result<(), CaError>)
        requires
            old(self).wf(),
        ensures
            final(self).wf(),
            r is Ok <==> secret_accepted(fetched),
            r matches Err(e) ==> load_failure(fetched) == Some(e),
            r is Ok ==> final(self).loaded() && final(self).held_certificate() == Some(decode_secret(fetched)->Ok_0.0),
            r is Err ==> final(self).custody() == old(self).custody(),
            final(self).entries() == old(self).entries(),
            final(self).source() == old(self).source(),
    {
        self.load_ca(&fetched)
    }

    pub fn is_loaded(&self) -> (r: bool)
        ensures
            r == self.loaded(),
    {
        self.ca.is_some()
    }

    /// Builds and signs a leaf certificate for the subject with a fresh key pair.
    pub fn generate_certificate(
        &self,
        common_name: &str,
        dns_names: &Vec<String>,
        ip_addresses: &Vec<String>,
        organizational_units: &Vec<String>,
        validity_days: i64,
        now: i64,
    ) -> (r: Result<IssuedCertificate, IssueError>)
        ensures
            precheck(self.loaded(), texts(dns_names@), validity_days as int, now as int) matches Some(e) ==> r
                == Err::<IssuedCertificate, IssueError>(e),
            r matches Ok(c) ==> {
                &&& precheck(self.loaded(), texts(dns_names@), validity_days as int, now as int) is None
                &&& c.not_before == now
                &&& c.not_after == now + validity_days * SECONDS_PER_DAY
                &&& first_pem_contents(self.held_certificate()->Some_0) is Some
                &&& first_pem_contents(c.certificate_pem@) is Some
                &&& cert_of(first_pem_contents(c.certificate_pem@)->Some_0) == cert_of_leaf(c.leaf@)
                &&& c.leaf@ == signed_leaf(
                    self.held_certificate()->Some_0,
                    common_name@,
                    texts(dns_names@),
                    texts(ip_addresses@),
                    texts(organizational_units@),
                    c.not_before as int,
                    c.not_after as int,
                )
            },
            r matches Err(e) ==> precheck(self.loaded(), texts(dns_names@), validity_days as int, now as int)
                == Some(e) || outside_failure(e),
    {
        let ca = match &self.ca {
            Some(c) => c,
            None => {
                return Err(IssueError::CaNotLoaded);
            },
        };
        let (not_before, not_after) = match validity_window(now, validity_days) {
            Some(w) => w,
            None => {
                return Err(IssueError::InvalidArgument);
            },
        };
        let mut i: usize = 0;
        while i < dns_names.len()
            invariant
                i <= dns_names.len(),
                self.loaded(),
                window_ok(now as int, validity_days as int),
                forall|j: int| 0 <= j < i ==> valid_dns_name(#[trigger] texts(dns_names@)[j]),
            decreases dns_names.len() - i,
        {
            if !is_dns_name(dns_names[i].as_str()) {
                assert(!valid_dns_name(texts(dns_names@)[i as int]));
                return Err(IssueError::InvalidArgument);
            }
            i = i + 1;
        }
        assert(precheck(self.loaded(), texts(dns_names@), validity_days as int, now as int) is None);
        let ca_der = match first_pem_block(ca.certificate_pem.as_str()) {
            Some(d) => d,
            None => {
                return Err(IssueError::CaParseError);
            },
        };
        let (ca_country, ca_organization) = ca_subject(&ca_der);
        let leaf_key = match generate_key_pair() {
            Some(k) => k,
            None => {
                return Err(IssueError::KeyGenerationError);
            },
        };
        let leaf = leaf_request(
            ca_country,
            ca_organization,
            common_name,
            dns_names,
            ip_addresses,
            organizational_units,
            not_before,
            not_after,
        );
        assert(distinct_attrs(leaf@.subject));
        let der = match sign_leaf(&leaf, &ca_der, &ca.key, &leaf_key) {
            Ok(d) => d,
            Err(e) => {
                return Err(e);
            },
        };
        Ok(
            IssuedCertificate {
                certificate_pem: certificate_pem(der),
                private_key_pem: key_pair_pem(&leaf_key),
                not_before,
                not_after,
                leaf,
            },
        )
    }
}

/// The fetched CA secret decodes and its key text parses.
pub open spec fn secret_accepted(fetched: SecretFetch) -> bool {
    decode_secret(fetched) is Ok && pem_key_accepted(decode_secret(fetched)->Ok_0.1)
}

/// Why loading the fetched CA secret fails, if it does.
pub open spec fn load_failure(fetched: SecretFetch) -> Option<CaError> {
    match decode_secret(fetched) {
        Err(e) => Some(e),
        Ok(p) => if pem_key_accepted(p.1) {
            None
        } else {
            Some(CaError::KeyParseError)
        },
    }
}


/// A renewed leaf.
pub struct RenewCertificateResponse {
    pub certificate_pem: String,
    pub private_key_pem: String,
    pub not_before: i64,
    pub not_after: i64,
    /// What was signed.
    pub leaf: LeafRequest,
}

/// The leaf that renewing a record signs: its stored subject and DNS names, no IP address.
pub open spec fn renewal_leaf(held: Seq<char>, rec: RecordView, not_before: int, not_after: int) -> LeafView {
    signed_leaf(
        held,
        rec.common_name,
        rec.dns_names,
        Seq::empty(),
        rec.organizational_units,
        not_before,
        not_after,
    )
}

/// The record that issuing `req` with the window `(not_before, not_after)` registers.
pub open spec fn issued_record(req: IssueCertificateRequest, not_before: i64, not_after: i64) -> RecordView {
    RecordView {
        certificate_id: req.certificate_id@,
        common_name: req.common_name@,
        dns_names: texts(req.dns_names@),
        organizational_units: texts(req.organizational_units@),
        not_before,
        not_after,
        metadata: req.metadata@,
    }
}

impl CertificateServiceImpl {
    /// Registers an issued certificate under the request's id, replacing any earlier record.
    pub fn record_issued(&mut self, req: IssueCertificateRequest, not_before: i64, not_after: i64)
        requires
            old(self).wf(),
        ensures
            final(self).wf(),
            final(self).entries() == old(self).entries().insert(
                req.certificate_id@,
                issued_record(req, not_before, not_after),
            ),
            final(self).custody() == old(self).custody(),
            final(self).source() == old(self).source(),
    {
        let ghost spec_req = req;
        let key = req.certificate_id.clone();
        let record = CertificateRecord {
            certificate_id: req.certificate_id,
            common_name: req.common_name,
            dns_names: req.dns_names,
            organizational_units: req.organizational_units,
            not_before,
            not_after,
            metadata: req.metadata,
        };
        assert(record@ == issued_record(spec_req, not_before, not_after));
        record_map_insert(&mut self.certificates, key, record);
    }

    /// Signs a leaf for the request and registers it under its id, replacing any earlier record.
    pub fn issue_certificate(&mut self, req: IssueCertificateRequest, now: i64) -> (r: Result<
        IssueCertificateResponse,
        ServiceError,
    >)
        requires
            old(self).wf(),
        ensures
            final(self).wf(),
            precheck(old(self).loaded(), texts(req.dns_names@), req.validity_days as int, now as int) matches Some(e)
                ==> r == Err::<IssueCertificateResponse, ServiceError>(ServiceError::Issue(e)),
            r matches Ok(resp) ==> {
                &&& precheck(old(self).loaded(), texts(req.dns_names@), req.validity_days as int, now as int) is None
                &&& resp.certificate_id@ == req.certificate_id@
                &&& resp.not_before == now
                &&& resp.not_after == now + req.validity_days * SECONDS_PER_DAY
                &&& first_pem_contents(resp.certificate_pem@) is Some
                &&& cert_of(first_pem_contents(resp.certificate_pem@)->Some_0) == cert_of_leaf(resp.leaf@)
                &&& resp.leaf@ == signed_leaf(
                    old(self).held_certificate()->Some_0,
                    req.common_name@,
                    texts(req.dns_names@),
                    texts(req.ip_addresses@),
                    texts(req.organizational_units@),
                    resp.not_before as int,
                    resp.not_after as int,
                )
                &&& final(self).entries() == old(self).entries().insert(
                    req.certificate_id@,
                    issued_record(req, resp.not_before, resp.not_after),
                )
            },
            r matches Err(ServiceError::Issue(e)) ==> precheck(
                old(self).loaded(),
                texts(req.dns_names@),
                req.validity_days as int,
                now as int,
            ) == Some(e) || outside_failure(e),
            r is Err ==> r != Err::<IssueCertificateResponse, ServiceError>(ServiceError::NotFound)
                && final(self).entries() == old(self).entries(),
            final(self).custody() == old(self).custody(),
            final(self).source() == old(self).source(),
    {
        let issued = match self.generate_certificate(
            req.common_name.as_str(),
            &req.dns_names,
            &req.ip_addresses,
            &req.organizational_units,
            req.validity_days,
            now,
        ) {
            Ok(c) => c,
            Err(e) => {
                return Err(ServiceError::Issue(e));
            },
        };
        let response_id = req.certificate_id.clone();
        self.record_issued(req, issued.not_before, issued.not_after);
        Ok(
            IssueCertificateResponse {
                certificate_id: response_id,
                certificate_pem: issued.certificate_pem,
                private_key_pem: issued.private_key_pem,
                not_before: issued.not_before,
                not_after: issued.not_after,
                leaf: issued.leaf,
            },
        )
    }

    /// Signs a new leaf for the subject stored under the id, without IP addresses; the registry
    /// is left as it is. An unknown id fails with `NotFound`.
    pub fn sign_renewal(&self, certificate_id: &String, validity_days: i64, now: i64) -> (r: Result<
        RenewCertificateResponse,
        ServiceError,
    >)
        ensures
            !self.entries().contains_key(certificate_id@) ==> r == Err::<
                RenewCertificateResponse,
                ServiceError,
            >(ServiceError::NotFound),
            self.entries().contains_key(certificate_id@) ==> (precheck(
                self.loaded(),
                self.entries()[certificate_id@].dns_names,
                validity_days as int,
                now as int,
            ) matches Some(e) ==> r == Err::<RenewCertificateResponse, ServiceError>(ServiceError::Issue(e))),
            r matches Err(ServiceError::Issue(e)) ==> self.entries().contains_key(certificate_id@) && (precheck(
                self.loaded(),
                self.entries()[certificate_id@].dns_names,
                validity_days as int,
                now as int,
            ) == Some(e) || outside_failure(e)),
            r matches Ok(resp) ==> {
                &&& self.entries().contains_key(certificate_id@)
                &&& precheck(
                    self.loaded(),
                    self.entries()[certificate_id@].dns_names,
                    validity_days as int,
                    now as int,
                ) is None
                &&& resp.not_before == now
                &&& resp.not_after == now + validity_days * SECONDS_PER_DAY
                &&& first_pem_contents(resp.certificate_pem@) is Some
                &&& cert_of(first_pem_contents(resp.certificate_pem@)->Some_0) == cert_of_leaf(resp.leaf@)
                &&& resp.leaf@ == renewal_leaf(
                    self.held_certificate()->Some_0,
                    self.entries()[certificate_id@],
                    resp.not_before as int,
                    resp.not_after as int,
                )
            },
    {
        let record = match record_map_get(&self.certificates, certificate_id) {
            Some(rec) => rec,
            None => {
                return Err(ServiceError::NotFound);
            },
        };
        let no_addresses: Vec<String> = Vec::new();
        assert(texts(no_addresses@) =~= Seq::<Seq<char>>::empty());
        let issued = match self.generate_certificate(
            record.common_name.as_str(),
            &record.dns_names,
            &no_addresses,
            &record.organizational_units,
            validity_days,
            now,
        ) {
            Ok(c) => c,
            Err(e) => {
                return Err(ServiceError::Issue(e));
            },
        };
        Ok(
            RenewCertificateResponse {
                certificate_pem: issued.certificate_pem,
                private_key_pem: issued.private_key_pem,
                not_before: issued.not_before,
                not_after: issued.not_after,
                leaf: issued.leaf,
            },
        )
    }

    /// Moves the window of the record under the id, every other field kept; an id that is no
    /// longer registered (revoked meanwhile) stays unregistered.
    pub fn record_renewal(&mut self, certificate_id: &String, not_before: i64, not_after: i64)
        requires
            old(self).wf(),
        ensures
            final(self).wf(),
            old(self).entries().contains_key(certificate_id@) ==> final(self).entries() == old(self).entries().insert(certificate_id@, with_window(old(self).entries()[certificate_id@], not_before, not_after)),
            !old(self).entries().contains_key(certificate_id@) ==> final(self).entries() == old(self).entries(),
            final(self).custody() == old(self).custody(),
            final(self).source() == old(self).source(),
    {
        let mut record = match record_map_get(&self.certificates, certificate_id) {
            Some(rec) => rec,
            None => {
                return ;
            },
        };
        let ghost before = record@;
        record.not_before = not_before;
        record.not_after = not_after;
        assert(record@ == with_window(before, not_before, not_after));
        record_map_insert(&mut self.certificates, certificate_id.clone(), record);
    }

    /// Signs a new leaf for the subject stored under the id (without IP addresses) and moves
    /// the record's window; an unknown id fails with `NotFound` and changes nothing.
    pub fn renew_certificate(&mut self, certificate_id: &String, validity_days: i64, now: i64) -> (r: Result<
        RenewCertificateResponse,
        ServiceError,
    >)
        requires
            old(self).wf(),
        ensures
            final(self).wf(),
            !old(self).entries().contains_key(certificate_id@) ==> r == Err::<
                RenewCertificateResponse,
                ServiceError,
            >(ServiceError::NotFound),
            r is Err ==> final(self).entries() == old(self).entries(),
            old(self).entries().contains_key(certificate_id@) ==> (precheck(
                old(self).loaded(),
                old(self).entries()[certificate_id@].dns_names,
                validity_days as int,
                now as int,
            ) matches Some(e) ==> r == Err::<RenewCertificateResponse, ServiceError>(ServiceError::Issue(e))),
            r matches Err(ServiceError::Issue(e)) ==> old(self).entries().contains_key(certificate_id@) && (precheck(
                old(self).loaded(),
                old(self).entries()[certificate_id@].dns_names,
                validity_days as int,
                now as int,
            ) == Some(e) || outside_failure(e)),
            r matches Ok(resp) ==> {
                &&& old(self).entries().contains_key(certificate_id@)
                &&& precheck(
                    old(self).loaded(),
                    old(self).entries()[certificate_id@].dns_names,
                    validity_days as int,
                    now as int,
                ) is None
                &&& resp.not_before == now
                &&& resp.not_after == now + validity_days * SECONDS_PER_DAY
                &&& first_pem_contents(resp.certificate_pem@) is Some
                &&& cert_of(first_pem_contents(resp.certificate_pem@)->Some_0) == cert_of_leaf(resp.leaf@)
                &&& resp.leaf@ == renewal_leaf(
                    old(self).held_certificate()->Some_0,
                    old(self).entries()[certificate_id@],
                    resp.not_before as int,
                    resp.not_after as int,
                )
                &&& final(self).entries() == old(self).entries().insert(
                    certificate_id@,
                    with_window(old(self).entries()[certificate_id@], resp.not_before, resp.not_after),
                )
            },
            final(self).custody() == old(self).custody(),
            final(self).source() == old(self).source(),
    {
        let response = match self.sign_renewal(certificate_id, validity_days, now) {
            Ok(resp) => resp,
            Err(e) => {
                return Err(e);
            },
        };
        self.record_renewal(certificate_id, response.not_before, response.not_after);
        Ok(response)
    }

    /// Removes the record of the id; removing an unknown id is no error.
    pub fn revoke_certificate(&mut self, certificate_id: &String) -> (r: bool)
        requires
            old(self).wf(),
        ensures
            final(self).wf(),
            r,
            final(self).entries() == old(self).entries().remove(certificate_id@),
            final(self).custody() == old(self).custody(),
            final(self).source() == old(self).source(),
    {
        record_map_remove(&mut self.certificates, certificate_id);
        true
    }

    /// The record of the id, and whether `now` lies within its window.
    pub fn get_certificate_info(&self, certificate_id: &String, now: i64) -> (r: Result<
        CertificateInfoResponse,
        ServiceError,
    >)
        ensures
            r is Ok <==> self.entries().contains_key(certificate_id@),
            r matches Err(e) ==> e == ServiceError::NotFound,
            r matches Ok(info) ==> {
                let v = self.entries()[certificate_id@];
                &&& info.certificate_id@ == v.certificate_id
                &&& info.common_name@ == v.common_name
                &&& texts(info.dns_names@) == v.dns_names
                &&& info.not_before == v.not_before
                &&& info.not_after == v.not_after
                &&& info.metadata@ == v.metadata
                &&& info.is_valid == (v.not_before <= now <= v.not_after)
            },
    {
        let record = match record_map_get(&self.certificates, certificate_id) {
            Some(rec) => rec,
            None => {
                return Err(ServiceError::NotFound);
            },
        };
        let is_valid = now >= record.not_before && now <= record.not_after;
        Ok(
            CertificateInfoResponse {
                certificate_id: record.certificate_id,
                common_name: record.common_name,
                dns_names: record.dns_names,
                not_before: record.not_before,
                not_after: record.not_after,
                is_valid,
                metadata: record.metadata,
            },
        )
    }
}

} // verus!
