use vstd::prelude::*;
use crate::custody::{decode_secret, reloaded, CaError, CaManager, SecretFetch};
use crate::monitor::{renewal_finished, CertificateMonitor, RenewalCycle};
use crate::fields::{texts, FieldMap};
use crate::registry::{unknown_mount_keeps_registry, without_mount, CertificateManager, InfoView};
use crate::template::{has_placeholder, resolve_template, text_result, TemplateError, TemplateParser};
use crate::text::{find_char, find_from, parse_i64, decimal_i64, split, split_on, trim, trimmed};

verus! {

/// Validity of a certificate when the volume does not ask for one, in days.
pub const DEFAULT_VALIDITY_DAYS: i64 = 7;

pub open spec fn pod_namespace_key() -> Seq<char> {
    "csi.storage.k8s.io/pod.namespace"@
}

pub open spec fn pod_name_key() -> Seq<char> {
    "csi.storage.k8s.io/pod.name"@
}

pub open spec fn cn_template_key() -> Seq<char> {
    "cn_template"@
}

pub open spec fn units_key() -> Seq<char> {
    "organizational_units"@
}

pub open spec fn validity_key() -> Seq<char> {
    "validity_days"@
}

/// Why a volume could not be published; every case is an invalid argument of the request.
#[derive(Debug)]
pub enum PublishError {
    MissingPodNamespace,
    MissingPodName,
    /// The common-name template could not be resolved.
    CommonNameTemplate(TemplateError),
    /// An organizational-unit template could not be resolved.
    UnitTemplate(TemplateError),
    /// `validity_days` is no positive integer; the offending text.
    InvalidValidityDays(String),
}

/// `namespace-name-volume`: unique across volumes of co-scheduled pods.
pub open spec fn certificate_id_of(namespace: Seq<char>, name: Seq<char>, volume_id: Seq<char>) -> Seq<char> {
    namespace + "-"@ + name + "-"@ + volume_id
}

/// `<pod>.<namespace>.svc.<cluster domain>`.
pub open spec fn default_common_name(name: Seq<char>, namespace: Seq<char>, domain: Seq<char>) -> Seq<char> {
    name + "."@ + namespace + ".svc."@ + domain
}

/// The common name: the resolved template if the volume gives one, else the default.
pub open spec fn common_name_of(
    ctx: Map<Seq<char>, Seq<char>>,
    name: Seq<char>,
    namespace: Seq<char>,
    domain: Seq<char>,
    metadata: Map<Seq<char>, Seq<char>>,
    spec: Map<Seq<char>, Seq<char>>,
) -> Result<Seq<char>, TemplateError> {
    if ctx.contains_key(cn_template_key()) {
        resolve_template(ctx[cn_template_key()], metadata, spec)
    } else {
        Ok(default_common_name(name, namespace, domain))
    }
}

/// The validity in days that the volume asks for (seven if it names none), or `None` when
/// what it names is no positive integer.
pub open spec fn validity_days_of(ctx: Map<Seq<char>, Seq<char>>) -> Option<int> {
    if !ctx.contains_key(validity_key()) {
        Some(DEFAULT_VALIDITY_DAYS as int)
    } else {
        match decimal_i64(ctx[validity_key()]) {
            Some(v) => if v > 0 {
                Some(v)
            } else {
                None
            },
            None => None,
        }
    }
}

/// The value of one trimmed, non-blank unit entry: the part after the first `:` (trimmed),
/// or the whole entry; placeholders in it are resolved.
pub open spec fn unit_value(
    entry: Seq<char>,
    metadata: Map<Seq<char>, Seq<char>>,
    spec: Map<Seq<char>, Seq<char>>,
) -> Result<Seq<char>, TemplateError> {
    let k = find_char(entry, ':', 0);
    let v = if k >= 0 {
        trimmed(entry.subrange(k + 1, entry.len() as int))
    } else {
        entry
    };
    if has_placeholder(v) {
        resolve_template(v, metadata, spec)
    } else {
        Ok(v)
    }
}

/// The unit values of the pieces, in order; blank pieces are dropped and the first
/// unresolved template fails the whole list.
pub open spec fn units_of_pieces(
    pieces: Seq<Seq<char>>,
    metadata: Map<Seq<char>, Seq<char>>,
    spec: Map<Seq<char>, Seq<char>>,
) -> Result<Seq<Seq<char>>, TemplateError>
    decreases pieces.len(),
{
    if pieces.len() == 0 {
        Ok(Seq::empty())
    } else {
        let t = trimmed(pieces[0]);
        let rest = units_of_pieces(pieces.drop_first(), metadata, spec);
        if t.len() == 0 {
            rest
        } else {
            match unit_value(t, metadata, spec) {
                Err(e) => Err(e),
                Ok(v) => match rest {
                    Ok(vs) => Ok(seq![v] + vs),
                    Err(e) => Err(e),
                },
            }
        }
    }
}

/// The organizational units that a comma-separated list gives.
pub open spec fn units_of(
    list: Seq<char>,
    metadata: Map<Seq<char>, Seq<char>>,
    spec: Map<Seq<char>, Seq<char>>,
) -> Result<Seq<Seq<char>>, TemplateError> {
    units_of_pieces(split_on(list, ','), metadata, spec)
}

pub open spec fn requested_units(
    ctx: Map<Seq<char>, Seq<char>>,
    metadata: Map<Seq<char>, Seq<char>>,
    spec: Map<Seq<char>, Seq<char>>,
) -> Result<Seq<Seq<char>>, TemplateError> {
    if ctx.contains_key(units_key()) {
        units_of(ctx[units_key()], metadata, spec)
    } else {
        Ok(Seq::empty())
    }
}

/// What to ask the issuing service for, once a publish request has been checked.
pub struct IssuancePlan {
    pub cert_id: String,
    pub common_name: String,
    pub dns_names: Vec<String>,
    pub ip_addresses: Vec<String>,
    pub organizational_units: Vec<String>,
    pub validity_days: i64,
}

/// The node's side of the volume protocol.
pub struct NodeService {
    node_id: String,
    cert_manager: CertificateManager,
    ca_manager: CaManager,
    cluster_domain: String,
    template_parser: TemplateParser,
}


pub ghost struct PlanView {
    pub cert_id: Seq<char>,
    pub common_name: Seq<char>,
    pub dns_names: Seq<Seq<char>>,
    pub ip_addresses: Seq<Seq<char>>,
    pub organizational_units: Seq<Seq<char>>,
    pub validity_days: int,
}

impl View for IssuancePlan {
    type V = PlanView;

    open spec fn view(&self) -> PlanView {
        PlanView {
            cert_id: self.cert_id@,
            common_name: self.common_name@,
            dns_names: texts(self.dns_names@),
            ip_addresses: texts(self.ip_addresses@),
            organizational_units: texts(self.organizational_units@),
            validity_days: self.validity_days as int,
        }
    }
}

pub open spec fn prepend_units(
    p: Seq<Seq<char>>,
    r: Result<Seq<Seq<char>>, TemplateError>,
) -> Result<Seq<Seq<char>>, TemplateError> {
    match r {
        Ok(x) => Ok(p + x),
        Err(e) => Err(e),
    }
}

pub open spec fn units_view(r: Result<Vec<String>, TemplateError>) -> Result<Seq<Seq<char>>, TemplateError> {
    match r {
        Ok(u) => Ok(texts(u@)),
        Err(e) => Err(e),
    }
}

proof fn lemma_prepend_units(p: Seq<Seq<char>>, v: Seq<char>, r: Result<Seq<Seq<char>>, TemplateError>)
    ensures
        prepend_units(p, prepend_units(seq![v], r)) == prepend_units(p.push(v), r),
{
    if let Ok(x) = r {
        assert(p + (seq![v] + x) =~= p.push(v) + x);
    }
}

/// The validity that the volume asks for: seven days when it names none.
pub fn parse_validity_days(volume_context: &FieldMap) -> (r: Result<i64, PublishError>)
    ensures
        r is Ok <==> validity_days_of(volume_context@) is Some,
        r matches Ok(d) ==> d as int == validity_days_of(volume_context@)->Some_0,
        r is Err ==> (r matches Err(PublishError::InvalidValidityDays(raw)) && raw@ == volume_context@[validity_key()]),
{
    let key = String::from_str("validity_days");
    match volume_context.get(&key) {
        None => Ok(DEFAULT_VALIDITY_DAYS),
        Some(raw) => match parse_i64(raw.as_str()) {
            Some(days) => {
                if days > 0 {
                    Ok(days)
                } else {
                    Err(PublishError::InvalidValidityDays(raw))
                }
            },
            None => Err(PublishError::InvalidValidityDays(raw)),
        },
    }
}

impl NodeService {
    pub closed spec fn manager(&self) -> CertificateManager {
        self.cert_manager
    }

    pub closed spec fn ca(&self) -> CaManager {
        self.ca_manager
    }

    /// Reloads the node's CA material as fetched anew; a failed reload keeps what was held.
    pub fn reload_ca(&mut self, fetched: SecretFetch) -> (r: Result<(), CaError>)
        requires
            old(self).wf(),
        ensures
            final(self).wf(),
            final(self).ca().held() == reloaded(old(self).ca().held(), fetched),
            final(self).ca().source() == old(self).ca().source(),
            r is Ok <==> decode_secret(fetched) is Ok,
            r matches Err(e) ==> decode_secret(fetched) == Err::<(Seq<char>, Seq<char>), CaError>(e),
            final(self).manager() == old(self).manager(),
            final(self).domain() == old(self).domain(),
            final(self).id() == old(self).id(),
    {
        self.ca_manager.reload_ca(fetched)
    }

    pub closed spec fn domain(&self) -> Seq<char> {
        self.cluster_domain@
    }

    pub closed spec fn id(&self) -> Seq<char> {
        self.node_id@
    }

    pub open spec fn wf(&self) -> bool {
        self.manager().wf()
    }

    pub fn new(node_id: String, cert_manager: CertificateManager, ca_manager: CaManager, cluster_domain: String) -> (r:
        NodeService)
        requires
            cert_manager.wf(),
        ensures
            r.wf(),
            r.manager() == cert_manager,
            r.domain() == cluster_domain@,
            r.id() == node_id@,
            r.ca() == ca_manager,
    {
        NodeService { node_id, cert_manager, ca_manager, cluster_domain, template_parser: TemplateParser {} }
    }

    pub fn cert_manager(&self) -> (r: &CertificateManager)
        ensures
            *r == self.manager(),
    {
        &self.cert_manager
    }

    pub fn ca_manager(&self) -> (r: &CaManager)
        ensures
            *r == self.ca(),
    {
        &self.ca_manager
    }

    /// The pod's namespace and name, which the orchestrator puts in the volume context.
    fn extract_pod_info(&self, volume_context: &FieldMap) -> (r: Result<(String, String), PublishError>)
        ensures
            !volume_context@.contains_key(pod_namespace_key()) ==> r matches Err(PublishError::MissingPodNamespace),
            volume_context@.contains_key(pod_namespace_key()) && !volume_context@.contains_key(pod_name_key())
                ==> r matches Err(PublishError::MissingPodName),
            volume_context@.contains_key(pod_namespace_key()) && volume_context@.contains_key(pod_name_key())
                ==> (r matches Ok(p) && p.0@ == volume_context@[pod_namespace_key()] && p.1@
                == volume_context@[pod_name_key()]),
    {
        let ns_key = String::from_str("csi.storage.k8s.io/pod.namespace");
        let name_key = String::from_str("csi.storage.k8s.io/pod.name");
        let namespace = match volume_context.get(&ns_key) {
            Some(v) => v,
            None => {
                return Err(PublishError::MissingPodNamespace);
            },
        };
        let name = match volume_context.get(&name_key) {
            Some(v) => v,
            None => {
                return Err(PublishError::MissingPodName);
            },
        };
        Ok((namespace, name))
    }

    /// Whether the common-name template or the unit list names a placeholder, so that the
    /// pod's metadata and spec must be fetched (once) for this request.
    pub fn needs_pod_info(&self, volume_context: &FieldMap) -> (r: bool)
        ensures
            r == ((volume_context@.contains_key(cn_template_key()) && has_placeholder(
                volume_context@[cn_template_key()],
            )) || (volume_context@.contains_key(units_key()) && has_placeholder(volume_context@[units_key()]))),
    {
        let cn_key = String::from_str("cn_template");
        let ou_key = String::from_str("organizational_units");
        let in_cn = match volume_context.get(&cn_key) {
            Some(t) => self.template_parser.has_templates(t.as_str()),
            None => false,
        };
        let in_units = match volume_context.get(&ou_key) {
            Some(t) => self.template_parser.has_templates(t.as_str()),
            None => false,
        };
        in_cn || in_units
    }

    /// The value of one trimmed unit entry.
    fn unit_value(&self, entry: &str, pod_metadata: &FieldMap, pod_spec: &FieldMap) -> (r: Result<
        String,
        TemplateError,
    >)
        ensures
            text_result(r) == unit_value(entry@, pod_metadata@, pod_spec@),
    {
        let n = entry.unicode_len();
        let k = find_from(entry, ':', 0, n);
        let value = if k < n {
            trim(entry.substring_char(k + 1, n))
        } else {
            String::from_str(entry)
        };
        if self.template_parser.has_templates(value.as_str()) {
            self.template_parser.resolve(value.as_str(), pod_metadata, pod_spec)
        } else {
            Ok(value)
        }
    }

    /// The organizational units of a comma-separated list.
    pub fn parse_organizational_units(&self, list: &str, pod_metadata: &FieldMap, pod_spec: &FieldMap) -> (r: Result<
        Vec<String>,
        TemplateError,
    >)
        ensures
            units_view(r) == units_of(list@, pod_metadata@, pod_spec@),
    {
        let pieces = split(list, ',');
        let ghost ps = pieces@.map_values(|p: String| p@);
        let ghost m = pod_metadata@;
        let ghost sp = pod_spec@;
        let mut out: Vec<String> = Vec::new();
        let mut i: usize = 0;
        assert(ps.skip(0) =~= ps);
        assert(texts(out@) + Seq::<Seq<char>>::empty() =~= texts(out@));
        while i < pieces.len()
            invariant
                i <= pieces.len(),
                ps == pieces@.map_values(|p: String| p@),
                ps == split_on(list@, ','),
                m == pod_metadata@,
                sp == pod_spec@,
                units_of_pieces(ps, m, sp) == prepend_units(texts(out@), units_of_pieces(ps.skip(i as int), m, sp)),
            decreases pieces.len() - i,
        {
            let ghost q = ps.skip(i as int);
            assert(q[0] == pieces@[i as int]@);
            assert(q.drop_first() =~= ps.skip(i + 1));
            let t = trim(pieces[i].as_str());
            if t.unicode_len() > 0 {
                match self.unit_value(t.as_str(), pod_metadata, pod_spec) {
                    Ok(v) => {
                        let ghost before = out@;
                        proof {
                            lemma_prepend_units(texts(out@), v@, units_of_pieces(ps.skip(i + 1), m, sp));
                        }
                        out.push(v);
                        assert(texts(out@) =~= texts(before).push(v@));
                    },
                    Err(e) => {
                        return Err(e);
                    },
                }
            }
            i = i + 1;
        }
        assert(ps.skip(i as int) =~= Seq::<Seq<char>>::empty());
        assert(texts(out@) + Seq::<Seq<char>>::empty() =~= texts(out@));
        Ok(out)
    }
}


/// The plan that a fully valid publish request gives.
pub open spec fn planned(
    volume_id: Seq<char>,
    namespace: Seq<char>,
    name: Seq<char>,
    common_name: Seq<char>,
    units: Seq<Seq<char>>,
    days: int,
) -> PlanView {
    PlanView {
        cert_id: certificate_id_of(namespace, name, volume_id),
        common_name,
        dns_names: seq![name],
        ip_addresses: Seq::empty(),
        organizational_units: units,
        validity_days: days,
    }
}

impl NodeService {
    /// Checks a publish request and works out what to issue; `pod_metadata` and `pod_spec` are
    /// the pod's fields, fetched when `needs_pod_info` says so (else empty).
    pub fn prepare_publish(
        &self,
        volume_id: &str,
        volume_context: &FieldMap,
        pod_metadata: &FieldMap,
        pod_spec: &FieldMap,
    ) -> (r: Result<IssuancePlan, PublishError>)
        ensures
            !volume_context@.contains_key(pod_namespace_key()) ==> r matches Err(PublishError::MissingPodNamespace),
            volume_context@.contains_key(pod_namespace_key()) && !volume_context@.contains_key(pod_name_key())
                ==> r matches Err(PublishError::MissingPodName),
            volume_context@.contains_key(pod_namespace_key()) && volume_context@.contains_key(pod_name_key()) ==> {
                let ctx = volume_context@;
                let ns = ctx[pod_namespace_key()];
                let name = ctx[pod_name_key()];
                match common_name_of(ctx, name, ns, self.domain(), pod_metadata@, pod_spec@) {
                    Err(e) => r matches Err(PublishError::CommonNameTemplate(e2)) && e2 == e,
                    Ok(cn) => match validity_days_of(ctx) {
                        None => r matches Err(PublishError::InvalidValidityDays(raw)) && raw@ == ctx[validity_key()],
                        Some(days) => match requested_units(ctx, pod_metadata@, pod_spec@) {
                            Err(e) => r matches Err(PublishError::UnitTemplate(e2)) && e2 == e,
                            Ok(units) => r matches Ok(plan) && plan@ == planned(volume_id@, ns, name, cn, units, days),
                        },
                    },
                }
            },
    {
        let (namespace, name) = match self.extract_pod_info(volume_context) {
            Ok(p) => p,
            Err(e) => {
                return Err(e);
            },
        };
        let mut cert_id = namespace.clone();
        cert_id.append("-");
        cert_id.append(name.as_str());
        cert_id.append("-");
        cert_id.append(volume_id);
        let cn_key = String::from_str("cn_template");
        let common_name = match volume_context.get(&cn_key) {
            Some(template) => match self.template_parser.resolve(template.as_str(), pod_metadata, pod_spec) {
                Ok(cn) => cn,
                Err(e) => {
                    return Err(PublishError::CommonNameTemplate(e));
                },
            },
            None => {
                let mut cn = name.clone();
                cn.append(".");
                cn.append(namespace.as_str());
                cn.append(".svc.");
                cn.append(self.cluster_domain.as_str());
                cn
            },
        };
        let validity_days = match parse_validity_days(volume_context) {
            Ok(d) => d,
            Err(e) => {
                return Err(e);
            },
        };
        let ou_key = String::from_str("organizational_units");
        let organizational_units = match volume_context.get(&ou_key) {
            Some(list) => match self.parse_organizational_units(list.as_str(), pod_metadata, pod_spec) {
                Ok(units) => units,
                Err(e) => {
                    return Err(PublishError::UnitTemplate(e));
                },
            },
            None => Vec::new(),
        };
        let dns_names = vec![name];
        let ip_addresses: Vec<String> = Vec::new();
        let plan = IssuancePlan { cert_id, common_name, dns_names, ip_addresses, organizational_units, validity_days };
        assert(texts(plan.dns_names@) =~= seq![plan.dns_names@[0]@]);
        assert(texts(plan.ip_addresses@) =~= Seq::<Seq<char>>::empty());
        assert(texts(plan.organizational_units@) =~= texts(organizational_units@));
        Ok(plan)
    }

    /// Registers a published certificate for renewal, once its files are written.
    pub fn record_publication(&mut self, cert_id: String, target_path: String, not_before: i64, not_after: i64)
        requires
            old(self).wf(),
        ensures
            final(self).wf(),
            final(self).manager().entries() == old(self).manager().entries().insert(
                cert_id@,
                InfoView { cert_id: cert_id@, mount_path: target_path@, not_before, not_after },
            ),
            final(self).domain() == old(self).domain(),
            final(self).id() == old(self).id(),
    {
        self.cert_manager.register_certificate(cert_id, target_path, not_before, not_after);
    }

    /// Stops managing the volume mounted at `target_path`; it always succeeds, also for a
    /// volume that is not known. Deleting the files is left to the caller, best effort.
    pub fn node_unpublish_volume(&mut self, volume_id: &str, target_path: &String) -> (r: Result<(), PublishError>)
        requires
            old(self).wf(),
        ensures
            r is Ok,
            final(self).wf(),
            final(self).manager().entries() == without_mount(old(self).manager().entries(), target_path@),
            (forall|k: Seq<char>| #[trigger] old(self).manager().entries().contains_key(k) ==> old(self).manager().entries()[k].mount_path != target_path@) ==> final(self).manager().entries() == old(self).manager().entries(),
            final(self).domain() == old(self).domain(),
            final(self).id() == old(self).id(),
    {
        proof {
            if forall|k: Seq<char>| #[trigger] self.manager().entries().contains_key(k)
                ==> self.manager().entries()[k].mount_path != target_path@ {
                unknown_mount_keeps_registry(self.manager().entries(), target_path@);
            }
        }
        self.cert_manager.unregister_mount(target_path);
        Ok(())
    }

    /// The node's id and its volume limit (zero: no limit).
    pub fn node_get_info(&self) -> (r: (String, i64))
        ensures
            r.0@ == self.id(),
            r.1 == 0,
    {
        (self.node_id.clone(), 0)
    }
}


impl NodeService {
    /// Starts a renewal scan at `now` over this node's registry.
    pub fn scan_for_renewal(&self, monitor: &CertificateMonitor, now: i64) -> (r: RenewalCycle)
        requires
            self.wf(),
        ensures
            r.wf(),
            r.position() == 0,
            r.awaiting() is None,
            r.items().len() == self.manager().entries().len(),
            forall|i: int|
                0 <= i < r.items().len() ==> self.manager().entries().contains_key(#[trigger] r.items()[i].cert_id@)
                    && self.manager().entries()[r.items()[i].cert_id@] == r.items()[i]@,
            forall|i: int|
                0 <= i < r.plan().len() ==> #[trigger] r.plan()[i] == crate::monitor::decision_of(
                    r.items()[i].not_before,
                    r.items()[i].not_after,
                    now,
                ),
    {
        RenewalCycle::scan(monitor, &self.cert_manager, now)
    }

    /// Ends an awaited renewal of the scan, recording a success in this node's registry.
    pub fn finish_renewal(
        &mut self,
        cycle: &mut RenewalCycle,
        monitor: &CertificateMonitor,
        index: usize,
        window: Option<(i64, i64)>,
    )
        requires
            old(self).wf(),
            old(cycle).wf(),
        ensures
            final(self).wf(),
            final(cycle).wf(),
            renewal_finished(
                *old(cycle),
                *final(cycle),
                old(self).manager().entries(),
                final(self).manager().entries(),
                index,
                window,
            ),
            final(self).domain() == old(self).domain(),
            final(self).id() == old(self).id(),
    {
        cycle.finish_renewal(monitor, &mut self.cert_manager, index, window);
    }

    /// The node announces no capability: staging and the rest are not needed for ephemeral volumes.
    pub fn node_get_capabilities(&self) -> (r: Vec<String>)
        ensures
            r@.len() == 0,
    {
        Vec::new()
    }
}

} // verus!
