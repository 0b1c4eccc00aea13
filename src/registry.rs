use vstd::prelude::*;
use dashmap::DashMap;

verus! {

/// A certificate that this node keeps renewed: where its files live and its validity window.
#[derive(Clone)]
pub struct CertificateInfo {
    pub cert_id: String,
    pub mount_path: String,
    pub not_before: i64,
    pub not_after: i64,
}

pub ghost struct InfoView {
    pub cert_id: Seq<char>,
    pub mount_path: Seq<char>,
    pub not_before: i64,
    pub not_after: i64,
}

impl View for CertificateInfo {
    type V = InfoView;

    open spec fn view(&self) -> InfoView {
        InfoView {
            cert_id: self.cert_id@,
            mount_path: self.mount_path@,
            not_before: self.not_before,
            not_after: self.not_after,
        }
    }
}

/// Renewal is due when less than a fifth of the lifetime remains: `(not_after − now) <
/// 0.2 × (not_after − not_before)`, with both sides scaled by five.
pub open spec fn renewal_due(not_before: int, not_after: int, now: int) -> bool {
    5 * (not_after - now) < not_after - not_before
}

/// Whether a certificate with this window is due for renewal at `now`.
pub fn needs_renewal_at(not_before: i64, not_after: i64, now: i64) -> (r: bool)
    ensures
        r == renewal_due(not_before as int, not_after as int, now as int),
{
    let lifetime: i128 = not_after as i128 - not_before as i128;
    let remaining: i128 = not_after as i128 - now as i128;
    5 * remaining < lifetime
}

/// With exactly a fifth of the lifetime left, renewal is not yet due.
pub proof fn exact_fifth_is_not_due(not_before: int, not_after: int, now: int)
    requires
        not_after > not_before,
        5 * (not_after - now) == not_after - not_before,
    ensures
        !renewal_due(not_before, not_after, now),
{
}

/// Relies on chrono::Utc::now: the current Unix time in seconds, read from the clock.
#[verifier::external_body]
pub(crate) fn unix_now() -> (r: i64) {
    chrono::Utc::now().timestamp()
}

/// The node's registry, keyed by certificate id.
pub type InfoMap = DashMap<String, CertificateInfo>;

/// What the node's registry holds, by certificate id.
pub uninterp spec fn info_entries(m: InfoMap) -> Map<Seq<char>, InfoView>;

pub open spec fn no_infos() -> Map<Seq<char>, InfoView> {
    Map::empty()
}

/// Every entry sits under its own id, and there are finitely many.
pub open spec fn keyed_by_id(entries: Map<Seq<char>, InfoView>) -> bool {
    &&& entries.dom().finite()
    &&& forall|k: Seq<char>| #[trigger] entries.contains_key(k) ==> entries[k].cert_id == k
}

/// The entries left once those mounted at `mount` are dropped.
pub open spec fn without_mount(entries: Map<Seq<char>, InfoView>, mount: Seq<char>) -> Map<Seq<char>, InfoView> {
    entries.restrict(entries.dom().filter(|k: Seq<char>| entries[k].mount_path != mount))
}

/// Relies on dashmap::DashMap::new: an empty map.
#[verifier::external_body]
fn new_info_map() -> (r: InfoMap)
    ensures
        info_entries(r) == no_infos(),
{
    DashMap::new()
}

/// Relies on dashmap::DashMap::insert: inserts or replaces the entry of the key.
#[verifier::external_body]
fn info_map_insert(m: &mut InfoMap, k: String, v: CertificateInfo)
    ensures
        info_entries(*final(m)) == info_entries(*old(m)).insert(k@, v@),
{
    m.insert(k, v);
}

/// Relies on dashmap::DashMap::remove: removes the entry of the key, if any.
#[verifier::external_body]
fn info_map_remove(m: &mut InfoMap, k: &String)
    ensures
        info_entries(*final(m)) == info_entries(*old(m)).remove(k@),
{
    m.remove(k);
}

/// Relies on dashmap::DashMap::retain: keeps the entries for which the verified `keeps_entry` holds.
#[verifier::external_body]
fn info_map_drop_mount(m: &mut InfoMap, mount: &String)
    ensures
        info_entries(*final(m)) == without_mount(info_entries(*old(m)), mount@),
{
    m.retain(|_, v| keeps_entry(v, mount));
}

/// Relies on dashmap::DashMap::iter: a copy of each entry's value, each entry once, in no set order.
#[verifier::external_body]
fn info_map_snapshot(m: &InfoMap) -> (r: Vec<CertificateInfo>)
    requires
        keyed_by_id(info_entries(*m)),
    ensures
        r@.len() == info_entries(*m).len(),
        forall|i: int|
            0 <= i < r@.len() ==> info_entries(*m).contains_key(#[trigger] r@[i].cert_id@) && info_entries(
                *m,
            )[r@[i].cert_id@] == r@[i]@,
        forall|i: int, j: int| 0 <= i < j < r@.len() ==> r@[i].cert_id@ != r@[j].cert_id@,
{
    m.iter().map(|e| e.value().clone()).collect()
}

/// An entry stays unless it is mounted at `mount`.
fn keeps_entry(info: &CertificateInfo, mount: &String) -> (r: bool)
    ensures
        r == (info.mount_path@ != mount@),
{
    !(info.mount_path == *mount)
}

/// The node's side of the certificate lifecycle: the address of the issuing service and the
/// registry of certificates to keep renewed.
pub struct CertificateManager {
    base_path: String,
    cert_service_addr: String,
    certificates: InfoMap,
}

pub open spec fn http_prefix() -> Seq<char> {
    seq!['h', 't', 't', 'p', ':', '/', '/']
}

pub open spec fn https_prefix() -> Seq<char> {
    seq!['h', 't', 't', 'p', 's', ':', '/', '/']
}

pub open spec fn starts_with(s: Seq<char>, p: Seq<char>) -> bool {
    p.len() <= s.len() && s.subrange(0, p.len() as int) == p
}

/// The address with an `http://` scheme added unless it names `http://` or `https://` already.
pub open spec fn endpoint_of(addr: Seq<char>) -> Seq<char> {
    if starts_with(addr, http_prefix()) || starts_with(addr, https_prefix()) {
        addr
    } else {
        http_prefix() + addr
    }
}

fn has_prefix(s: &str, p: &str) -> (r: bool)
    ensures
        r == starts_with(s@, p@),
{
    let n = s.unicode_len();
    let m = p.unicode_len();
    if m > n {
        return false;
    }
    let mut i: usize = 0;
    while i < m
        invariant
            i <= m <= n,
            n == s@.len(),
            m == p@.len(),
            forall|j: int| 0 <= j < i ==> s@[j] == p@[j],
        decreases m - i,
    {
        if s.get_char(i) != p.get_char(i) {
            return false;
        }
        i = i + 1;
    }
    assert(s@.subrange(0, m as int) =~= p@);
    true
}

impl CertificateManager {
    pub closed spec fn entries(&self) -> Map<Seq<char>, InfoView> {
        info_entries(self.certificates)
    }

    pub closed spec fn service_addr(&self) -> Seq<char> {
        self.cert_service_addr@
    }

    pub closed spec fn base(&self) -> Seq<char> {
        self.base_path@
    }

    pub open spec fn wf(&self) -> bool {
        keyed_by_id(self.entries())
    }

    pub fn new(base_path: String, cert_service_addr: String) -> (r: CertificateManager)
        ensures
            r.wf(),
            r.entries() == no_infos(),
            r.base() == base_path@,
            r.service_addr() == cert_service_addr@,
    {
        CertificateManager { base_path, cert_service_addr, certificates: new_info_map() }
    }

    /// The address of the issuing service, with an `http://` scheme unless one is given.
    pub fn service_endpoint(&self) -> (r: String)
        ensures
            r@ == endpoint_of(self.service_addr()),
    {
        let http = "http://";
        let https = "https://";
        proof {
            reveal_strlit("http://");
            reveal_strlit("https://");
        }
        assert(http@ =~= http_prefix());
        assert(https@ =~= https_prefix());
        if has_prefix(self.cert_service_addr.as_str(), http) || has_prefix(self.cert_service_addr.as_str(), https) {
            self.cert_service_addr.clone()
        } else {
            let mut r = String::from_str(http);
            r.append(self.cert_service_addr.as_str());
            r
        }
    }

    /// Records the certificate for monitoring, replacing an earlier record of the same id.
    pub fn register_certificate(&mut self, cert_id: String, mount_path: String, not_before: i64, not_after: i64)
        requires
            old(self).wf(),
        ensures
            final(self).wf(),
            final(self).entries() == old(self).entries().insert(
                cert_id@,
                InfoView { cert_id: cert_id@, mount_path: mount_path@, not_before, not_after },
            ),
            final(self).service_addr() == old(self).service_addr(),
            final(self).base() == old(self).base(),
    {
        let key = cert_id.clone();
        let info = CertificateInfo { cert_id, mount_path, not_before, not_after };
        info_map_insert(&mut self.certificates, key, info);
        assert(self.entries().dom() =~= old(self).entries().dom().insert(info.cert_id@));
    }

    /// Stops monitoring the certificate of this id; an unknown id is no error.
    pub fn unregister_certificate(&mut self, cert_id: &String)
        requires
            old(self).wf(),
        ensures
            final(self).wf(),
            final(self).entries() == old(self).entries().remove(cert_id@),
            final(self).service_addr() == old(self).service_addr(),
            final(self).base() == old(self).base(),
    {
        info_map_remove(&mut self.certificates, cert_id);
        assert(self.entries().dom() =~= old(self).entries().dom().remove(cert_id@));
    }

    /// Stops monitoring every certificate whose files live at `mount_path`.
    pub fn unregister_mount(&mut self, mount_path: &String)
        requires
            old(self).wf(),
        ensures
            final(self).wf(),
            final(self).entries() == without_mount(old(self).entries(), mount_path@),
            final(self).service_addr() == old(self).service_addr(),
            final(self).base() == old(self).base(),
    {
        info_map_drop_mount(&mut self.certificates, mount_path);
        let ghost before = old(self).entries();
        assert(self.entries().dom() =~= before.dom().filter(|k: Seq<char>| before[k].mount_path != mount_path@));
    }

    /// A point-in-time copy of every registered certificate.
    pub fn get_all_certificates(&self) -> (r: Vec<CertificateInfo>)
        requires
            self.wf(),
        ensures
            r@.len() == self.entries().len(),
            forall|i: int|
                0 <= i < r@.len() ==> self.entries().contains_key(#[trigger] r@[i].cert_id@) && self.entries()[r@[i].cert_id@]
                    == r@[i]@,
            forall|i: int, j: int| 0 <= i < j < r@.len() ==> r@[i].cert_id@ != r@[j].cert_id@,
    {
        info_map_snapshot(&self.certificates)
    }

    /// Whether a certificate with this window is due for renewal now, by the clock, together
    /// with the instant (Unix seconds) that the clock gave.
    pub fn needs_renewal(&self, not_before: i64, not_after: i64) -> (r: (bool, i64))
        ensures
            r.0 == renewal_due(not_before as int, not_after as int, r.1 as int),
    {
        let now = unix_now();
        (needs_renewal_at(not_before, not_after, now), now)
    }
}

/// Registering the same id a second time replaces its entry: the registry keeps the size
/// that the first registration gave it.
pub proof fn register_twice_keeps_size(
    entries: Map<Seq<char>, InfoView>,
    id: Seq<char>,
    first: InfoView,
    second: InfoView,
)
    ensures
        entries.insert(id, first).insert(id, second).dom() == entries.insert(id, first).dom(),
        entries.insert(id, first).insert(id, second).len() == entries.insert(id, first).len(),
{
    assert(entries.insert(id, first).insert(id, second).dom() =~= entries.insert(id, first).dom());
}


/// Unpublishing a volume that no registered certificate is mounted at leaves the registry
/// exactly as it was.
pub proof fn unknown_mount_keeps_registry(entries: Map<Seq<char>, InfoView>, mount: Seq<char>)
    requires
        forall|k: Seq<char>| #[trigger] entries.contains_key(k) ==> entries[k].mount_path != mount,
    ensures
        without_mount(entries, mount) == entries,
{
    assert(without_mount(entries, mount) =~= entries);
}

} // verus!
