use vstd::prelude::*;
use crate::fields::{pairs_map, FieldMap};

verus! {

/// What the pod source reports of one pod, as plain values.
pub struct PodFields {
    pub name: Option<String>,
    pub namespace: Option<String>,
    pub uid: Option<String>,
    pub labels: Vec<(String, String)>,
    pub annotations: Vec<(String, String)>,
    pub service_account_name: Option<String>,
    pub node_name: Option<String>,
    pub hostname: Option<String>,
    pub subdomain: Option<String>,
    pub priority_class_name: Option<String>,
}

/// The pair `(key, value)` if the value is present.
pub open spec fn optional_pair(key: Seq<char>, value: Option<String>) -> Seq<(Seq<char>, Seq<char>)> {
    match value {
        Some(v) => seq![(key, v@)],
        None => Seq::empty(),
    }
}

/// Each pair with its key under `prefix`.
pub open spec fn prefixed(prefix: Seq<char>, pairs: Seq<(String, String)>) -> Seq<(Seq<char>, Seq<char>)> {
    pairs.map_values(|p: (String, String)| (prefix + p.0@, p.1@))
}

/// The metadata fields: name, namespace, uid, then `labels.<key>` and `annotations.<key>`.
pub open spec fn metadata_pairs(pod: PodFields) -> Seq<(Seq<char>, Seq<char>)> {
    optional_pair("name"@, pod.name) + optional_pair("namespace"@, pod.namespace) + optional_pair("uid"@, pod.uid)
        + prefixed("labels."@, pod.labels@) + prefixed("annotations."@, pod.annotations@)
}

/// The spec fields: serviceAccountName, nodeName, hostname, subdomain, priorityClassName.
pub open spec fn spec_pairs(pod: PodFields) -> Seq<(Seq<char>, Seq<char>)> {
    optional_pair("serviceAccountName"@, pod.service_account_name) + optional_pair("nodeName"@, pod.node_name)
        + optional_pair("hostname"@, pod.hostname) + optional_pair("subdomain"@, pod.subdomain) + optional_pair(
        "priorityClassName"@,
        pod.priority_class_name,
    )
}

proof fn lemma_pairs_map_push(p: Seq<(Seq<char>, Seq<char>)>, x: (Seq<char>, Seq<char>))
    ensures
        pairs_map(p.push(x)) == pairs_map(p).insert(x.0, x.1),
{
    assert(p.push(x).drop_last() =~= p);
}

/// Adds the field if it is present.
fn insert_optional(m: &mut FieldMap, key: &str, value: &Option<String>, Ghost(before): Ghost<
    Seq<(Seq<char>, Seq<char>)>,
>)
    requires
        old(m)@ == pairs_map(before),
    ensures
        final(m)@ == pairs_map(before + optional_pair(key@, *value)),
{
    match value {
        Some(v) => {
            proof {
                lemma_pairs_map_push(before, (key@, v@));
                assert(before + optional_pair(key@, *value) =~= before.push((key@, v@)));
            }
            m.insert(String::from_str(key), v.clone());
        },
        None => {
            assert(before + optional_pair(key@, *value) =~= before);
        },
    }
}

/// Adds every pair with its key under `prefix`.
fn insert_prefixed(m: &mut FieldMap, prefix: &str, pairs: &Vec<(String, String)>, Ghost(before): Ghost<
    Seq<(Seq<char>, Seq<char>)>,
>)
    requires
        old(m)@ == pairs_map(before),
    ensures
        final(m)@ == pairs_map(before + prefixed(prefix@, pairs@)),
{
    let mut i: usize = 0;
    assert(before + prefixed(prefix@, pairs@.take(0)) =~= before);
    while i < pairs.len()
        invariant
            i <= pairs.len(),
            m@ == pairs_map(before + prefixed(prefix@, pairs@.take(i as int))),
        decreases pairs.len() - i,
    {
        let mut key = String::from_str(prefix);
        key.append(pairs[i].0.as_str());
        let ghost done = before + prefixed(prefix@, pairs@.take(i as int));
        proof {
            lemma_pairs_map_push(done, (key@, pairs@[i as int].1@));
            assert(before + prefixed(prefix@, pairs@.take(i + 1)) =~= done.push((key@, pairs@[i as int].1@)));
        }
        m.insert(key, pairs[i].1.clone());
        i = i + 1;
    }
    assert(pairs@.take(pairs.len() as int) =~= pairs@);
}

/// The pod's metadata as flattened fields.
pub fn pod_metadata(pod: &PodFields) -> (r: FieldMap)
    ensures
        r@ == pairs_map(metadata_pairs(*pod)),
{
    let mut m = FieldMap::new();
    let ghost start = Seq::<(Seq<char>, Seq<char>)>::empty();
    assert(pairs_map(start) == m@);
    insert_optional(&mut m, "name", &pod.name, Ghost(start));
    let ghost named = start + optional_pair("name"@, pod.name);
    insert_optional(&mut m, "namespace", &pod.namespace, Ghost(named));
    let ghost namespaced = named + optional_pair("namespace"@, pod.namespace);
    insert_optional(&mut m, "uid", &pod.uid, Ghost(namespaced));
    let ghost with_uid = namespaced + optional_pair("uid"@, pod.uid);
    insert_prefixed(&mut m, "labels.", &pod.labels, Ghost(with_uid));
    let ghost labelled = with_uid + prefixed("labels."@, pod.labels@);
    insert_prefixed(&mut m, "annotations.", &pod.annotations, Ghost(labelled));
    assert(start + optional_pair("name"@, pod.name) =~= optional_pair("name"@, pod.name));
    m
}

/// The pod's spec as flattened fields.
pub fn pod_spec(pod: &PodFields) -> (r: FieldMap)
    ensures
        r@ == pairs_map(spec_pairs(*pod)),
{
    let mut m = FieldMap::new();
    let ghost start = Seq::<(Seq<char>, Seq<char>)>::empty();
    assert(pairs_map(start) == m@);
    insert_optional(&mut m, "serviceAccountName", &pod.service_account_name, Ghost(start));
    let ghost with_account = start + optional_pair("serviceAccountName"@, pod.service_account_name);
    insert_optional(&mut m, "nodeName", &pod.node_name, Ghost(with_account));
    let ghost with_node = with_account + optional_pair("nodeName"@, pod.node_name);
    insert_optional(&mut m, "hostname", &pod.hostname, Ghost(with_node));
    let ghost with_host = with_node + optional_pair("hostname"@, pod.hostname);
    insert_optional(&mut m, "subdomain", &pod.subdomain, Ghost(with_host));
    let ghost with_subdomain = with_host + optional_pair("subdomain"@, pod.subdomain);
    insert_optional(&mut m, "priorityClassName", &pod.priority_class_name, Ghost(with_subdomain));
    assert(start + optional_pair("serviceAccountName"@, pod.service_account_name) =~= optional_pair(
        "serviceAccountName"@,
        pod.service_account_name,
    ));
    m
}

} // verus!
