use vstd::prelude::*;
use vstd::utf8::{decode_utf8, valid_utf8};

verus! {

/// Why CA material could not be loaded or served.
#[derive(Debug, Clone, Copy, PartialEq, Eq, Structural)]
pub enum CaError {
    /// The secret could not be fetched.
    FetchFailed,
    /// The secret holds no data, or lacks `tls.crt` or `tls.key`.
    ConfigError,
    /// A blob is not valid UTF-8 text.
    EncodingError,
    /// The key text cannot be parsed as a private key.
    KeyParseError,
    /// No CA material has been loaded yet.
    NotLoaded,
}

/// One named blob of a secret.
pub struct SecretBlob {
    pub name: String,
    pub data: Vec<u8>,
}

/// What fetching the CA secret gave.
pub enum SecretFetch {
    /// The secret source could not be reached, or has no such secret.
    Unreachable,
    /// The secret exists but holds no data.
    NoData,
    /// The secret's blobs.
    Data(Vec<SecretBlob>),
}

pub open spec fn cert_blob_name() -> Seq<char> {
    seq!['t', 'l', 's', '.', 'c', 'r', 't']
}

pub open spec fn key_blob_name() -> Seq<char> {
    seq!['t', 'l', 's', '.', 'k', 'e', 'y']
}

/// The data of the first blob called `name`.
pub open spec fn blob_named(blobs: Seq<SecretBlob>, name: Seq<char>) -> Option<Seq<u8>>
    decreases blobs.len(),
{
    if blobs.len() == 0 {
        None
    } else if blobs[0].name@ == name {
        Some(blobs[0].data@)
    } else {
        blob_named(blobs.drop_first(), name)
    }
}

/// The (certificate, key) texts that a fetched secret holds, or why it holds none.
pub open spec fn decode_secret(f: SecretFetch) -> Result<(Seq<char>, Seq<char>), CaError> {
    match f {
        SecretFetch::Unreachable => Err(CaError::FetchFailed),
        SecretFetch::NoData => Err(CaError::ConfigError),
        SecretFetch::Data(blobs) => {
            let crt = blob_named(blobs@, cert_blob_name());
            let key = blob_named(blobs@, key_blob_name());
            if crt is None {
                Err(CaError::ConfigError)
            } else if !valid_utf8(crt->Some_0) {
                Err(CaError::EncodingError)
            } else if key is None {
                Err(CaError::ConfigError)
            } else if !valid_utf8(key->Some_0) {
                Err(CaError::EncodingError)
            } else {
                Ok((decode_utf8(crt->Some_0), decode_utf8(key->Some_0)))
            }
        },
    }
}

pub open spec fn decoded_view(r: Result<(String, String), CaError>) -> Result<(Seq<char>, Seq<char>), CaError> {
    match r {
        Ok(p) => Ok((p.0@, p.1@)),
        Err(e) => Err(e),
    }
}

/// Credential held after a reload from `fetched`: the new pair when it decodes, else the old one.
pub open spec fn reloaded(
    held: Option<(Seq<char>, Seq<char>)>,
    fetched: SecretFetch,
) -> Option<(Seq<char>, Seq<char>)> {
    match decode_secret(fetched) {
        Ok(c) => Some(c),
        Err(_) => held,
    }
}

/// Relies on String::from_utf8: text exactly when the bytes are valid UTF-8, decoded as UTF-8.
#[verifier::external_body]
fn utf8_text(b: &Vec<u8>) -> (r: Option<String>)
    ensures
        r is Some <==> valid_utf8(b@),
        r matches Some(s) ==> s@ == decode_utf8(b@),
{
    String::from_utf8(b.clone()).ok()
}

/// The data of the first blob called `name`.
fn find_blob<'a>(blobs: &'a Vec<SecretBlob>, name: &String) -> (r: Option<&'a Vec<u8>>)
    ensures
        r is Some <==> blob_named(blobs@, name@) is Some,
        r matches Some(d) ==> d@ == blob_named(blobs@, name@)->Some_0,
{
    let mut i: usize = 0;
    assert(blobs@.skip(0) =~= blobs@);
    while i < blobs.len()
        invariant
            i <= blobs.len(),
            blob_named(blobs@, name@) == blob_named(blobs@.skip(i as int), name@),
        decreases blobs.len() - i,
    {
        assert(blobs@.skip(i as int).drop_first() =~= blobs@.skip(i + 1));
        if blobs[i].name == *name {
            return Some(&blobs[i].data);
        }
        i = i + 1;
    }
    None
}

/// Checks a fetched CA secret and returns its certificate and key texts.
pub fn decode_ca_secret(fetched: &SecretFetch) -> (r: Result<(String, String), CaError>)
    ensures
        decoded_view(r) == decode_secret(*fetched),
{
    match fetched {
        SecretFetch::Unreachable => Err(CaError::FetchFailed),
        SecretFetch::NoData => Err(CaError::ConfigError),
        SecretFetch::Data(blobs) => {
            let crt_name = String::from_str("tls.crt");
            let key_name = String::from_str("tls.key");
            proof {
                reveal_strlit("tls.crt");
                reveal_strlit("tls.key");
                assert(crt_name@ =~= cert_blob_name());
                assert(key_name@ =~= key_blob_name());
            }
            let crt = match find_blob(blobs, &crt_name) {
                Some(d) => d,
                None => {
                    return Err(CaError::ConfigError);
                },
            };
            let crt_text = match utf8_text(crt) {
                Some(t) => t,
                None => {
                    return Err(CaError::EncodingError);
                },
            };
            let key = match find_blob(blobs, &key_name) {
                Some(d) => d,
                None => {
                    return Err(CaError::ConfigError);
                },
            };
            let key_text = match utf8_text(key) {
                Some(t) => t,
                None => {
                    return Err(CaError::EncodingError);
                },
            };
            Ok((crt_text, key_text))
        },
    }
}

/// Holds the CA certificate and key in memory; they are never written to disk.
pub struct CaManager {
    secret_name: String,
    secret_namespace: String,
    credential: Option<(String, String)>,
}

impl CaManager {
    /// The (certificate, key) texts held, if any.
    pub closed spec fn held(&self) -> Option<(Seq<char>, Seq<char>)> {
        match self.credential {
            Some(p) => Some((p.0@, p.1@)),
            None => None,
        }
    }

    pub closed spec fn source(&self) -> (Seq<char>, Seq<char>) {
        (self.secret_name@, self.secret_namespace@)
    }

    /// A manager for the secret `secret_namespace/secret_name`, loaded from what was fetched of it.
    pub fn new(secret_name: String, secret_namespace: String, fetched: SecretFetch) -> (r: Result<CaManager, CaError>)
        ensures
            r is Ok <==> decode_secret(fetched) is Ok,
            r matches Ok(m) ==> m.held() == Some(decode_secret(fetched)->Ok_0) && m.source() == (secret_name@, secret_namespace@),
            r matches Err(e) ==> decode_secret(fetched) == Err::<(Seq<char>, Seq<char>), CaError>(e),
    {
        let mut manager = CaManager { secret_name, secret_namespace, credential: None };
        match manager.load_ca(&fetched) {
            Ok(()) => Ok(manager),
            Err(e) => Err(e),
        }
    }

    pub fn secret_name(&self) -> (r: &String)
        ensures
            r@ == self.source().0,
    {
        &self.secret_name
    }

    pub fn secret_namespace(&self) -> (r: &String)
        ensures
            r@ == self.source().1,
    {
        &self.secret_namespace
    }

    /// Swaps in the fetched pair as a whole; on failure the held pair stays as it was.
    fn load_ca(&mut self, fetched: &SecretFetch) -> (r: Result<(), CaError>)
        ensures
            final(self).held() == reloaded(old(self).held(), *fetched),
            final(self).source() == old(self).source(),
            r is Ok <==> decode_secret(*fetched) is Ok,
            r matches Err(e) ==> decode_secret(*fetched) == Err::<(Seq<char>, Seq<char>), CaError>(e),
    {
        match decode_ca_secret(fetched) {
            Ok(pair) => {
                self.credential = Some(pair);
                Ok(())
            },
            Err(e) => Err(e),
        }
    }

    /// The CA certificate (PEM text).
    pub fn get_ca_cert(&self) -> (r: Result<String, CaError>)
        ensures
            r is Ok <==> self.held() is Some,
            r matches Ok(c) ==> c@ == self.held()->Some_0.0,
            r matches Err(e) ==> e == CaError::NotLoaded,
    {
        match &self.credential {
            Some(p) => Ok(p.0.clone()),
            None => Err(CaError::NotLoaded),
        }
    }

    /// The CA private key (PEM text).
    pub fn get_ca_key(&self) -> (r: Result<String, CaError>)
        ensures
            r is Ok <==> self.held() is Some,
            r matches Ok(k) ==> k@ == self.held()->Some_0.1,
            r matches Err(e) ==> e == CaError::NotLoaded,
    {
        match &self.credential {
            Some(p) => Ok(p.1.clone()),
            None => Err(CaError::NotLoaded),
        }
    }

    /// Loads the secret again, as fetched anew (for rotation).
    pub fn reload_ca(&mut self, fetched: SecretFetch) -> (r: Result<(), CaError>)
        ensures
            final(self).held() == reloaded(old(self).held(), fetched),
            final(self).source() == old(self).source(),
            r is Ok <==> decode_secret(fetched) is Ok,
            r matches Err(e) ==> decode_secret(fetched) == Err::<(Seq<char>, Seq<char>), CaError>(e),
    {
        self.load_ca(&fetched)
    }

    pub fn is_loaded(&self) -> (r: bool)
        ensures
            r == self.held() is Some,
    {
        self.credential.is_some()
    }
}

/// A reload whose fetch or decoding fails keeps the pair held before it, so whatever was
/// served before (certificate and key) is served after it.
pub proof fn failed_reload_keeps_credentials(held: Option<(Seq<char>, Seq<char>)>, fetched: SecretFetch)
    requires
        decode_secret(fetched) is Err,
    ensures
        reloaded(held, fetched) == held,
{
}

} // verus!
