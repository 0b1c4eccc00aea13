use cacsi_driver::authority::{
    join_units, subject_attributes, validity_window, CertificateServiceImpl, IssueCertificateRequest, IssueError,
    ServiceError,
};
use cacsi_driver::custody::{CaError, SecretBlob, SecretFetch};
use cacsi_driver::fields::FieldMap;
use cacsi_driver::pki::DnAttr;
use x509_parser::prelude::FromDer;

const NOW: i64 = 1_700_000_000;

fn ca_material(country: Option<&str>, org: Option<&str>) -> (String, String) {
    let key = rcgen::KeyPair::generate().unwrap();
    let mut params = rcgen::CertificateParams::default();
    params.is_ca = rcgen::IsCa::Ca(rcgen::BasicConstraints::Unconstrained);
    let mut dn = rcgen::DistinguishedName::new();
    if let Some(c) = country {
        dn.push(rcgen::DnType::CountryName, c);
    }
    if let Some(o) = org {
        dn.push(rcgen::DnType::OrganizationName, o);
    }
    dn.push(rcgen::DnType::CommonName, "test root");
    params.distinguished_name = dn;
    let cert = params.self_signed(&key).unwrap();
    (cert.pem(), key.serialize_pem())
}

fn secret(cert: &str, key: &str) -> SecretFetch {
    SecretFetch::Data(vec![
        SecretBlob { name: "tls.crt".to_string(), data: cert.as_bytes().to_vec() },
        SecretBlob { name: "tls.key".to_string(), data: key.as_bytes().to_vec() },
    ])
}

fn service() -> CertificateServiceImpl {
    let (cert, key) = ca_material(Some("SE"), Some("Example Org"));
    CertificateServiceImpl::new("ca".to_string(), "kube-system".to_string(), secret(&cert, &key)).unwrap()
}

fn strings(v: &[&str]) -> Vec<String> {
    v.iter().map(|s| s.to_string()).collect()
}

struct Subject {
    country: Option<String>,
    org: Option<String>,
    units: Vec<String>,
    cn: Option<String>,
    dns: Vec<String>,
    ips: usize,
}

fn subject_of(cert_pem: &str) -> Subject {
    let block = pem::parse(cert_pem).unwrap();
    let (_, cert) = x509_parser::certificate::X509Certificate::from_der(block.contents()).unwrap();
    let subject = cert.subject();
    let first = |it: &mut dyn Iterator<Item = &x509_parser::x509::AttributeTypeAndValue>| {
        it.next().map(|a| a.as_str().unwrap().to_string())
    };
    let mut dns = Vec::new();
    let mut ips = 0;
    if let Ok(Some(san)) = cert.subject_alternative_name() {
        for name in &san.value.general_names {
            match name {
                x509_parser::extensions::GeneralName::DNSName(d) => dns.push(d.to_string()),
                x509_parser::extensions::GeneralName::IPAddress(_) => ips += 1,
                _ => {}
            }
        }
    }
    let country = first(&mut subject.iter_country());
    let org = first(&mut subject.iter_organization());
    let units = subject.iter_organizational_unit().map(|a| a.as_str().unwrap().to_string()).collect();
    let cn = first(&mut subject.iter_common_name());
    Subject { country, org, units, cn, dns, ips }
}

fn request(id: &str, units: &[&str]) -> IssueCertificateRequest {
    IssueCertificateRequest {
        certificate_id: id.to_string(),
        common_name: "web.default.svc.cluster.local".to_string(),
        dns_names: strings(&["web"]),
        ip_addresses: strings(&["10.0.0.1", "not-an-ip"]),
        organizational_units: strings(units),
        validity_days: 7,
        metadata: FieldMap::new(),
    }
}

#[test]
fn issued_units_are_joined_into_one_attribute() {
    let svc = service();
    let issued = svc
        .generate_certificate("cn1", &strings(&["pod"]), &vec![], &strings(&["t:tenant1", "e:prod"]), 7, NOW)
        .unwrap();
    let subject = subject_of(&issued.certificate_pem);
    assert_eq!(subject.units, vec!["t:tenant1 + e:prod".to_string()]);
    assert_eq!(subject.cn, Some("cn1".to_string()));
}

#[test]
fn issued_subject_copies_country_and_organization_of_ca() {
    let svc = service();
    let issued = svc.generate_certificate("cn1", &strings(&["pod"]), &vec![], &vec![], 7, NOW).unwrap();
    let subject = subject_of(&issued.certificate_pem);
    assert_eq!(subject.country, Some("SE".to_string()));
    assert_eq!(subject.org, Some("Example Org".to_string()));
    assert!(subject.units.is_empty());
    assert!(issued.private_key_pem.contains("PRIVATE KEY"));
    assert_eq!(issued.certificate_pem.matches("BEGIN CERTIFICATE").count(), 1);
}

#[test]
fn issued_subject_falls_back_to_defaults() {
    let (cert, key) = ca_material(None, None);
    let svc = CertificateServiceImpl::new("ca".to_string(), "ns".to_string(), secret(&cert, &key)).unwrap();
    let issued = svc.generate_certificate("cn1", &vec![], &vec![], &vec![], 1, NOW).unwrap();
    let subject = subject_of(&issued.certificate_pem);
    assert_eq!(subject.country, Some("DK".to_string()));
    assert_eq!(subject.org, Some("Akuzo".to_string()));
}

#[test]
fn issued_window_is_fixed_length_days() {
    let svc = service();
    let issued = svc.generate_certificate("cn1", &vec![], &vec![], &vec![], 3, NOW).unwrap();
    assert_eq!(issued.not_before, NOW);
    assert_eq!(issued.not_after, NOW + 3 * 86400);
}

#[test]
fn issued_alt_names_drop_bad_addresses() {
    let svc = service();
    let issued = svc
        .generate_certificate("cn1", &strings(&["a", "b.example"]), &strings(&["10.1.2.3", "::1", "nope"]), &vec![], 7, NOW)
        .unwrap();
    let subject = subject_of(&issued.certificate_pem);
    assert_eq!(subject.dns, vec!["a".to_string(), "b.example".to_string()]);
    assert_eq!(subject.ips, 2);
}

#[test]
fn non_ascii_dns_name_is_invalid_argument() {
    let svc = service();
    let r = svc.generate_certificate("cn1", &strings(&["ok", "bär"]), &vec![], &vec![], 7, NOW);
    assert!(matches!(r, Err(IssueError::InvalidArgument)));
}

#[test]
fn non_positive_validity_is_invalid_argument() {
    let svc = service();
    assert!(matches!(svc.generate_certificate("cn", &vec![], &vec![], &vec![], 0, NOW), Err(IssueError::InvalidArgument)));
    assert!(matches!(svc.generate_certificate("cn", &vec![], &vec![], &vec![], -3, NOW), Err(IssueError::InvalidArgument)));
}

#[test]
fn unreadable_ca_certificate_is_parse_error() {
    let (_, key) = ca_material(None, None);
    let svc = CertificateServiceImpl::new("ca".to_string(), "ns".to_string(), secret("not a pem", &key)).unwrap();
    let r = svc.generate_certificate("cn", &vec![], &vec![], &vec![], 7, NOW);
    assert!(matches!(r, Err(IssueError::CaParseError)));
}

#[test]
fn bad_key_text_fails_load() {
    let (cert, _) = ca_material(None, None);
    let r = CertificateServiceImpl::new("ca".to_string(), "ns".to_string(), secret(&cert, "garbage"));
    assert!(matches!(r, Err(CaError::KeyParseError)));
}

#[test]
fn issue_then_info_reports_record() {
    let mut svc = service();
    let resp = svc.issue_certificate(request("ns-pod-vol", &["t:x"]), NOW).unwrap();
    assert_eq!(resp.certificate_id, "ns-pod-vol");
    let info = svc.get_certificate_info(&"ns-pod-vol".to_string(), NOW + 10).unwrap();
    assert_eq!(info.common_name, "web.default.svc.cluster.local");
    assert_eq!(info.dns_names, vec!["web".to_string()]);
    assert_eq!(info.not_before, NOW);
    assert_eq!(info.not_after, NOW + 7 * 86400);
    assert!(info.is_valid);
    let later = svc.get_certificate_info(&"ns-pod-vol".to_string(), NOW + 8 * 86400).unwrap();
    assert!(!later.is_valid);
}

#[test]
fn renew_unknown_id_is_not_found_and_changes_nothing() {
    let mut svc = service();
    svc.issue_certificate(request("known", &[]), NOW).unwrap();
    let r = svc.renew_certificate(&"unknown".to_string(), 7, NOW + 100);
    assert!(matches!(r, Err(ServiceError::NotFound)));
    assert!(matches!(svc.get_certificate_info(&"unknown".to_string(), NOW), Err(ServiceError::NotFound)));
    let known = svc.get_certificate_info(&"known".to_string(), NOW).unwrap();
    assert_eq!(known.not_before, NOW);
}

#[test]
fn renew_moves_window_and_keeps_subject() {
    let mut svc = service();
    svc.issue_certificate(request("id1", &["t:tenant1", "e:prod"]), NOW).unwrap();
    let renewed = svc.renew_certificate(&"id1".to_string(), 7, NOW + 1000).unwrap();
    assert_eq!(renewed.not_before, NOW + 1000);
    assert_eq!(renewed.not_after, NOW + 1000 + 7 * 86400);
    let subject = subject_of(&renewed.certificate_pem);
    assert_eq!(subject.units, vec!["t:tenant1 + e:prod".to_string()]);
    assert_eq!(subject.ips, 0);
    let info = svc.get_certificate_info(&"id1".to_string(), NOW + 1000).unwrap();
    assert_eq!(info.not_before, NOW + 1000);
    assert_eq!(info.common_name, "web.default.svc.cluster.local");
}

#[test]
fn revoke_removes_and_is_idempotent() {
    let mut svc = service();
    svc.issue_certificate(request("id1", &[]), NOW).unwrap();
    assert!(svc.revoke_certificate(&"id1".to_string()));
    assert!(matches!(svc.get_certificate_info(&"id1".to_string(), NOW), Err(ServiceError::NotFound)));
    assert!(svc.revoke_certificate(&"id1".to_string()));
}

#[test]
fn failed_reload_keeps_signing() {
    let mut svc = service();
    assert!(matches!(svc.reload_ca(SecretFetch::Unreachable), Err(CaError::FetchFailed)));
    assert!(svc.is_loaded());
    assert!(svc.generate_certificate("cn", &vec![], &vec![], &vec![], 1, NOW).is_ok());
}

#[test]
fn join_units_uses_plus_separator() {
    assert_eq!(join_units(&strings(&["t:tenant1", "e:prod"])), "t:tenant1 + e:prod");
    assert_eq!(join_units(&strings(&["one"])), "one");
    assert_eq!(join_units(&vec![]), "");
}

#[test]
fn subject_attributes_in_fixed_order() {
    let attrs = subject_attributes("DK", "Org", &strings(&["a", "b"]), "cn");
    let kinds: Vec<DnAttr> = attrs.iter().map(|a| a.0).collect();
    assert_eq!(kinds, vec![DnAttr::Country, DnAttr::Organization, DnAttr::OrganizationalUnit, DnAttr::CommonName]);
    assert_eq!(attrs[2].1, "a + b");
    let plain = subject_attributes("DK", "Org", &vec![], "cn");
    assert_eq!(plain.len(), 3);
}

#[test]
fn validity_window_bounds() {
    assert_eq!(validity_window(NOW, 7), Some((NOW, NOW + 604800)));
    assert_eq!(validity_window(NOW, 0), None);
    assert_eq!(validity_window(NOW, i64::MAX), None);
}

#[test]
fn malformed_dns_labels_are_invalid_argument() {
    let svc = service();
    for bad in ["bad_label", "-a", "a..b", ""] {
        let r = svc.generate_certificate("cn", &strings(&[bad]), &vec![], &vec![], 7, NOW);
        assert!(matches!(r, Err(IssueError::InvalidArgument)), "{}", bad);
    }
}

#[test]
fn window_before_year_zero_is_invalid_argument() {
    let svc = service();
    let r = svc.generate_certificate("cn", &vec![], &vec![], &vec![], 1, -100_000_000_000);
    assert!(matches!(r, Err(IssueError::InvalidArgument)));
    let early = svc.generate_certificate("cn", &vec![], &vec![], &vec![], 1, -62_167_219_200).unwrap();
    assert_eq!(early.not_before, -62_167_219_200);
}

#[test]
fn issued_leaf_records_what_was_signed() {
    let mut svc = service();
    let resp = svc.issue_certificate(request("id1", &["t:tenant1", "e:prod"]), NOW).unwrap();
    let subject: Vec<(DnAttr, String)> = resp.leaf.subject.clone();
    assert_eq!(
        subject,
        vec![
            (DnAttr::Country, "SE".to_string()),
            (DnAttr::Organization, "Example Org".to_string()),
            (DnAttr::OrganizationalUnit, "t:tenant1 + e:prod".to_string()),
            (DnAttr::CommonName, "web.default.svc.cluster.local".to_string()),
        ]
    );
    assert_eq!(resp.leaf.dns_names, vec!["web".to_string()]);
    assert_eq!(resp.leaf.ip_addresses, vec!["10.0.0.1".to_string()]);
    assert_eq!((resp.leaf.not_before, resp.leaf.not_after), (NOW, NOW + 7 * 86400));
    assert_eq!(resp.leaf.key_usages.len(), 3);
    assert_eq!(resp.leaf.extended_usages.len(), 2);
    let subject = subject_of(&resp.certificate_pem);
    assert_eq!(subject.ips, 1);
    let renewed = svc.renew_certificate(&"id1".to_string(), 7, NOW + 5).unwrap();
    assert!(renewed.leaf.ip_addresses.is_empty());
    assert_eq!(renewed.leaf.subject[2].1, "t:tenant1 + e:prod");
}

#[test]
fn split_renewal_signs_then_records() {
    let mut svc = service();
    svc.issue_certificate(request("id1", &[]), NOW).unwrap();
    let signed = svc.sign_renewal(&"id1".to_string(), 2, NOW + 50).unwrap();
    assert_eq!(svc.get_certificate_info(&"id1".to_string(), NOW).unwrap().not_before, NOW);
    svc.record_renewal(&"id1".to_string(), signed.not_before, signed.not_after);
    let info = svc.get_certificate_info(&"id1".to_string(), NOW + 50).unwrap();
    assert_eq!((info.not_before, info.not_after), (NOW + 50, NOW + 50 + 2 * 86400));
    svc.record_renewal(&"gone".to_string(), 1, 2);
    assert!(matches!(svc.get_certificate_info(&"gone".to_string(), NOW), Err(ServiceError::NotFound)));
}
