use vstd::prelude::*;

verus! {

/// The map that a list of (key, value) pairs stands for: a later pair overrides an earlier one.
pub open spec fn pairs_map(p: Seq<(Seq<char>, Seq<char>)>) -> Map<Seq<char>, Seq<char>>
    decreases p.len(),
{
    if p.len() == 0 {
        Map::empty()
    } else {
        pairs_map(p.drop_last()).insert(p.last().0, p.last().1)
    }
}

/// The texts of a list of strings.
pub open spec fn texts(v: Seq<String>) -> Seq<Seq<char>> {
    v.map_values(|s: String| s@)
}

/// Flattened string fields of a pod (`name`, `namespace`, `labels.app`, `serviceAccountName`, ...).
#[derive(Clone)]
pub struct FieldMap {
    entries: Vec<(String, String)>,
}

impl FieldMap {
    pub closed spec fn pairs(&self) -> Seq<(Seq<char>, Seq<char>)> {
        self.entries@.map_values(|e: (String, String)| (e.0@, e.1@))
    }

    pub fn new() -> (r: FieldMap)
        ensures
            r@ == Map::<Seq<char>, Seq<char>>::empty(),
    {
        let r = FieldMap { entries: Vec::new() };
        assert(r.pairs() =~= Seq::<(Seq<char>, Seq<char>)>::empty());
        r
    }

    /// Sets `key` to `value`, replacing an earlier value of the same key.
    pub fn insert(&mut self, key: String, value: String)
        ensures
            final(self)@ == old(self)@.insert(key@, value@),
    {
        let ghost k = key@;
        let ghost v = value@;
        self.entries.push((key, value));
        assert(self.pairs().drop_last() =~= old(self).pairs());
        assert(self.pairs().last() == (k, v));
    }

    pub fn len(&self) -> (r: usize)
        ensures
            r as int == self.pairs().len(),
    {
        self.entries.len()
    }

    /// The value of `key`, if the map has one.
    pub fn get(&self, key: &String) -> (r: Option<String>)
        ensures
            r is Some <==> self@.contains_key(key@),
            r matches Some(v) ==> v@ == self@[key@],
    {
        let mut i: usize = self.entries.len();
        while i > 0
            invariant
                i <= self.entries.len(),
                forall|j: int| i <= j < self.pairs().len() ==> self.pairs()[j].0 != key@,
            decreases i,
        {
            if self.entries[i - 1].0 == *key {
                let v = self.entries[i - 1].1.clone();
                proof {
                    let p = self.pairs();
                    lemma_pairs_map_skip(p, i as int, key@);
                    assert(p.take(i as int).drop_last() =~= p.take(i - 1));
                }
                return Some(v);
            }
            i = i - 1;
        }
        proof {
            let p = self.pairs();
            lemma_pairs_map_skip(p, 0, key@);
            assert(p.take(0) =~= Seq::<(Seq<char>, Seq<char>)>::empty());
        }
        None
    }
}

impl View for FieldMap {
    type V = Map<Seq<char>, Seq<char>>;

    closed spec fn view(&self) -> Map<Seq<char>, Seq<char>> {
        pairs_map(self.pairs())
    }
}

/// Pairs after position `i` that do not hold `key` leave its entry as the prefix set it.
proof fn lemma_pairs_map_skip(p: Seq<(Seq<char>, Seq<char>)>, i: int, key: Seq<char>)
    requires
        0 <= i <= p.len(),
        forall|j: int| i <= j < p.len() ==> p[j].0 != key,
    ensures
        pairs_map(p).contains_key(key) == pairs_map(p.take(i)).contains_key(key),
        pairs_map(p).contains_key(key) ==> pairs_map(p)[key] == pairs_map(p.take(i))[key],
    decreases p.len() - i,
{
    if i == p.len() {
        assert(p.take(i) =~= p);
    } else {
        let q = p.drop_last();
        assert(q.take(i) =~= p.take(i));
        lemma_pairs_map_skip(q, i, key);
    }
}

} // verus!
