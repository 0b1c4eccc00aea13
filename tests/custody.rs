use cacsi_driver::custody::{decode_ca_secret, CaError, CaManager, SecretBlob, SecretFetch};

fn blobs(pairs: &[(&str, &[u8])]) -> SecretFetch {
    SecretFetch::Data(pairs.iter().map(|(n, d)| SecretBlob { name: n.to_string(), data: d.to_vec() }).collect())
}

#[test]
fn decode_reads_both_blobs() {
    let r = decode_ca_secret(&blobs(&[("tls.key", b"KEY"), ("tls.crt", b"CERT")]));
    assert_eq!(r, Ok(("CERT".to_string(), "KEY".to_string())));
}

#[test]
fn decode_errors() {
    assert_eq!(decode_ca_secret(&SecretFetch::Unreachable), Err(CaError::FetchFailed));
    assert_eq!(decode_ca_secret(&SecretFetch::NoData), Err(CaError::ConfigError));
    assert_eq!(decode_ca_secret(&blobs(&[("tls.key", b"KEY")])), Err(CaError::ConfigError));
    assert_eq!(decode_ca_secret(&blobs(&[("tls.crt", b"CERT")])), Err(CaError::ConfigError));
    assert_eq!(decode_ca_secret(&blobs(&[("tls.crt", &[0xff, 0xfe]), ("tls.key", b"K")])), Err(CaError::EncodingError));
    assert_eq!(decode_ca_secret(&blobs(&[("tls.crt", b"C"), ("tls.key", &[0xc3])])), Err(CaError::EncodingError));
}

#[test]
fn failed_reload_leaves_credentials_servable() {
    let mut m = CaManager::new("s".to_string(), "ns".to_string(), blobs(&[("tls.crt", b"C1"), ("tls.key", b"K1")])).unwrap();
    assert_eq!(m.reload_ca(SecretFetch::Unreachable), Err(CaError::FetchFailed));
    assert_eq!(m.get_ca_cert(), Ok("C1".to_string()));
    assert_eq!(m.get_ca_key(), Ok("K1".to_string()));
    assert_eq!(m.reload_ca(blobs(&[("tls.crt", b"C2")])), Err(CaError::ConfigError));
    assert_eq!(m.get_ca_cert(), Ok("C1".to_string()));
    assert!(m.is_loaded());
}

#[test]
fn successful_reload_swaps_pair() {
    let mut m = CaManager::new("s".to_string(), "ns".to_string(), blobs(&[("tls.crt", b"C1"), ("tls.key", b"K1")])).unwrap();
    assert_eq!(m.reload_ca(blobs(&[("tls.crt", b"C2"), ("tls.key", b"K2")])), Ok(()));
    assert_eq!(m.get_ca_cert(), Ok("C2".to_string()));
    assert_eq!(m.get_ca_key(), Ok("K2".to_string()));
    assert_eq!(m.secret_name(), "s");
    assert_eq!(m.secret_namespace(), "ns");
}

#[test]
fn new_fails_without_data() {
    assert!(matches!(CaManager::new("s".to_string(), "ns".to_string(), SecretFetch::NoData), Err(CaError::ConfigError)));
}
