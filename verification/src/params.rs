//! Canonical parameter sets and their form encoding.
//!
//! A `ParameterSet` is a mapping from parameter names to values, both
//! byte strings. Its entries are kept strictly sorted by key, so the
//! set has exactly one representation per mapping and the encoded body
//! is a function of the mapping alone. The encoding joins `key=value`
//! pairs with `&`, with no trailing separator and no escaping: the
//! encoded bytes are exactly the bytes that are later hashed and sent.

use vstd::prelude::*;

verus! {

/// Strict byte-lexicographic order on keys.
pub open spec fn key_lt(a: Seq<u8>, b: Seq<u8>) -> bool
    decreases a.len(), b.len(),
{
    if b.len() == 0 {
        false
    } else if a.len() == 0 {
        true
    } else if a[0] < b[0] {
        true
    } else if a[0] > b[0] {
        false
    } else {
        key_lt(a.drop_first(), b.drop_first())
    }
}

pub proof fn lemma_key_lt_irrefl(a: Seq<u8>)
    ensures
        !key_lt(a, a),
    decreases a.len(),
{
    if a.len() > 0 {
        lemma_key_lt_irrefl(a.drop_first());
    }
}

pub proof fn lemma_key_lt_asym(a: Seq<u8>, b: Seq<u8>)
    requires
        key_lt(a, b),
    ensures
        !key_lt(b, a),
    decreases a.len(),
{
    if a.len() > 0 && b.len() > 0 && a[0] == b[0] {
        lemma_key_lt_asym(a.drop_first(), b.drop_first());
    }
}

pub proof fn lemma_key_lt_trans(a: Seq<u8>, b: Seq<u8>, c: Seq<u8>)
    requires
        key_lt(a, b),
        key_lt(b, c),
    ensures
        key_lt(a, c),
    decreases a.len(),
{
    if a.len() > 0 {
        if a[0] == b[0] && b[0] == c[0] {
            lemma_key_lt_trans(a.drop_first(), b.drop_first(), c.drop_first());
        }
    }
}

/// A strict prefix, or a smaller byte after a common prefix, orders
/// `a` below `b`.
proof fn lemma_key_lt_from_prefix(a: Seq<u8>, b: Seq<u8>, i: int)
    requires
        0 <= i <= a.len(),
        i <= b.len(),
        forall|j: int| 0 <= j < i ==> a[j] == b[j],
        (i < a.len() && i < b.len() && a[i] < b[i]) || (i == a.len() && i < b.len()),
    ensures
        key_lt(a, b),
    decreases i,
{
    if i == 0 {
        assert(b.len() > 0);
    } else {
        assert(a[0] == b[0]);
        let a1 = a.drop_first();
        let b1 = b.drop_first();
        assert(forall|j: int| 0 <= j < i - 1 ==> a1[j] == b1[j]);
        if i < a.len() {
            assert(a1[i - 1] == a[i] && b1[i - 1] == b[i]);
        }
        lemma_key_lt_from_prefix(a1, b1, i - 1);
    }
}

/// Result of a three-way key comparison.
enum KeyOrder {
    Less,
    Equal,
    Greater,
}

/// Three-way byte-lexicographic comparison of two keys.
fn cmp_keys(a: &Vec<u8>, b: &Vec<u8>) -> (r: KeyOrder)
    ensures
        match r {
            KeyOrder::Less => key_lt(a@, b@),
            KeyOrder::Equal => a@ == b@,
            KeyOrder::Greater => key_lt(b@, a@),
        },
{
    let mut i: usize = 0;
    loop
        invariant
            i <= a.len(),
            i <= b.len(),
            forall|j: int| 0 <= j < i ==> a@[j] == b@[j],
        decreases a.len() - i,
    {
        if i < a.len() && i < b.len() {
            if a[i] < b[i] {
                proof {
                    lemma_key_lt_from_prefix(a@, b@, i as int);
                }
                return KeyOrder::Less;
            }
            if a[i] > b[i] {
                proof {
                    lemma_key_lt_from_prefix(b@, a@, i as int);
                }
                return KeyOrder::Greater;
            }
            i = i + 1;
        } else if i < b.len() {
            proof {
                lemma_key_lt_from_prefix(a@, b@, i as int);
            }
            return KeyOrder::Less;
        } else if i < a.len() {
            proof {
                lemma_key_lt_from_prefix(b@, a@, i as int);
            }
            return KeyOrder::Greater;
        } else {
            proof {
                assert(a@ =~= b@);
            }
            return KeyOrder::Equal;
        }
    }
}

/// The keys of `s` are strictly increasing.
pub open spec fn keys_sorted(s: Seq<(Seq<u8>, Seq<u8>)>) -> bool {
    forall|i: int, j: int| 0 <= i < j < s.len() ==> key_lt(s[i].0, s[j].0)
}

/// Some entry of `s` carries the key `k`.
pub open spec fn has_key(s: Seq<(Seq<u8>, Seq<u8>)>, k: Seq<u8>) -> bool {
    exists|i: int| 0 <= i < s.len() && s[i].0 == k
}

/// The index of the entry carrying `k` (meaningful when the keys of
/// `s` are distinct).
pub open spec fn index_of(s: Seq<(Seq<u8>, Seq<u8>)>, k: Seq<u8>) -> int {
    choose|i: int| 0 <= i < s.len() && s[i].0 == k
}

/// The mapping that a sequence of entries represents.
pub open spec fn pairs_map(s: Seq<(Seq<u8>, Seq<u8>)>) -> Map<Seq<u8>, Seq<u8>> {
    Map::new(|k: Seq<u8>| has_key(s, k), |k: Seq<u8>| s[index_of(s, k)].1)
}

/// In a sorted sequence, each key appears at most once.
proof fn lemma_sorted_key_unique(s: Seq<(Seq<u8>, Seq<u8>)>, i: int, j: int)
    requires
        keys_sorted(s),
        0 <= i < s.len(),
        0 <= j < s.len(),
        s[i].0 == s[j].0,
    ensures
        i == j,
{
    if i < j {
        assert(key_lt(s[i].0, s[j].0));
        lemma_key_lt_irrefl(s[i].0);
    }
    if j < i {
        assert(key_lt(s[j].0, s[i].0));
        lemma_key_lt_irrefl(s[i].0);
    }
}

/// In a sorted sequence, the mapping reads back each entry.
proof fn lemma_map_at(s: Seq<(Seq<u8>, Seq<u8>)>, i: int)
    requires
        keys_sorted(s),
        0 <= i < s.len(),
    ensures
        pairs_map(s).dom().contains(s[i].0),
        pairs_map(s)[s[i].0] == s[i].1,
{
    assert(has_key(s, s[i].0));
    let j = index_of(s, s[i].0);
    assert(0 <= j < s.len() && s[j].0 == s[i].0);
    lemma_sorted_key_unique(s, i, j);
}

/// A mapping of parameter names to values, kept in the single strictly
/// key-sorted representation, so that encoding it is deterministic.
pub struct ParameterSet {
    entries: Vec<(Vec<u8>, Vec<u8>)>,
}

impl View for ParameterSet {
    type V = Seq<(Seq<u8>, Seq<u8>)>;

    closed spec fn view(&self) -> Seq<(Seq<u8>, Seq<u8>)> {
        self.entries@.map_values(|p: (Vec<u8>, Vec<u8>)| (p.0@, p.1@))
    }
}

/// The canonical form encoding of a sequence of entries: `key=value`
/// pairs joined by `&`, empty for no entries, with no trailing
/// separator and no escaping.
pub open spec fn encoded(s: Seq<(Seq<u8>, Seq<u8>)>) -> Seq<u8>
    decreases s.len(),
{
    if s.len() == 0 {
        Seq::empty()
    } else if s.len() == 1 {
        s[0].0 + seq![61u8] + s[0].1
    } else {
        encoded(s.drop_last()) + seq![38u8] + s.last().0 + seq![61u8] + s.last().1
    }
}

impl ParameterSet {
    /// The entries are strictly sorted by key.
    pub open spec fn wf(&self) -> bool {
        keys_sorted(self@)
    }

    /// The mapping this set represents.
    pub open spec fn as_map(&self) -> Map<Seq<u8>, Seq<u8>> {
        pairs_map(self@)
    }

    /// The empty parameter set.
    pub fn new() -> (r: ParameterSet)
        ensures
            r.wf(),
            r@.len() == 0,
            r.as_map() == Map::<Seq<u8>, Seq<u8>>::empty(),
    {
        let r = ParameterSet { entries: Vec::new() };
        proof {
            assert(r@.len() == 0);
            assert(r.as_map() =~= Map::<Seq<u8>, Seq<u8>>::empty());
        }
        r
    }

    /// How many parameters the set holds.
    pub fn len(&self) -> (r: usize)
        ensures
            r == self@.len(),
    {
        self.entries.len()
    }

    /// Whether a parameter named `key` is present.
    pub fn contains_key(&self, key: &Vec<u8>) -> (r: bool)
        requires
            self.wf(),
        ensures
            r == self.as_map().dom().contains(key@),
    {
        let mut i: usize = 0;
        loop
            invariant
                i <= self.entries.len(),
                self@.len() == self.entries.len(),
                forall|j: int| 0 <= j < i ==> self@[j].0 != key@,
            decreases self.entries.len() - i,
        {
            if i == self.entries.len() {
                proof {
                    assert(!has_key(self@, key@));
                }
                return false;
            }
            match cmp_keys(&self.entries[i].0, key) {
                KeyOrder::Equal => {
                    proof {
                        assert(self@[i as int].0 == key@);
                        assert(has_key(self@, key@));
                    }
                    return true;
                },
                KeyOrder::Less => {
                    proof {
                        lemma_key_lt_irrefl(key@);
                    }
                    i = i + 1;
                },
                KeyOrder::Greater => {
                    proof {
                        lemma_key_lt_irrefl(key@);
                    }
                    i = i + 1;
                },
            }
        }
    }

    /// Finds where `key` stands or would stand: the first position whose
    /// key is not below `key`, and whether that position already carries
    /// `key` itself.
    fn position_for(&self, key: &Vec<u8>) -> (r: (usize, bool))
        requires
            self.wf(),
        ensures
            r.0 <= self@.len(),
            forall|j: int| 0 <= j < r.0 ==> key_lt(self@[j].0, key@),
            r.1 ==> r.0 < self@.len() && self@[r.0 as int].0 == key@,
            !r.1 ==> r.0 == self@.len() || key_lt(key@, self@[r.0 as int].0),
    {
        let mut i: usize = 0;
        loop
            invariant
                i <= self.entries.len(),
                self@.len() == self.entries.len(),
                forall|j: int| 0 <= j < i ==> key_lt(self@[j].0, key@),
            decreases self.entries.len() - i,
        {
            if i == self.entries.len() {
                return (i, false);
            }
            match cmp_keys(&self.entries[i].0, key) {
                KeyOrder::Less => {
                    i = i + 1;
                },
                KeyOrder::Equal => {
                    return (i, true);
                },
                KeyOrder::Greater => {
                    return (i, false);
                },
            }
        }
    }

    /// Binds `key` to `value`: adds the parameter, or replaces the value
    /// of an existing one. The set stays canonical and afterwards
    /// represents exactly the old mapping with `key` bound to `value`.
    pub fn insert(&mut self, key: Vec<u8>, value: Vec<u8>)
        requires
            old(self).wf(),
        ensures
            final(self).wf(),
            final(self).as_map() == old(self).as_map().insert(key@, value@),
            final(self)@.len() <= old(self)@.len() + 1,
    {
        let ghost s0 = self@;
        let (pos, found) = self.position_for(&key);
        if found {
            let _replaced = self.entries.remove(pos);
            self.entries.insert(pos, (key, value));
            proof {
                let s1 = self@;
                assert(s1 =~= s0.update(pos as int, (key@, value@)));
                lemma_insert_at(s0, s1, pos as int, key@, value@, true);
            }
        } else {
            self.entries.insert(pos, (key, value));
            proof {
                let s1 = self@;
                assert(s1 =~= s0.insert(pos as int, (key@, value@)));
                lemma_insert_at(s0, s1, pos as int, key@, value@, false);
            }
        }
    }

    /// Encodes the set as the canonical request body.
    pub fn encode(&self) -> (r: Vec<u8>)
        ensures
            r@ == encoded(self@),
    {
        let mut out: Vec<u8> = Vec::new();
        let mut i: usize = 0;
        proof {
            assert(self@.subrange(0, 0) =~= Seq::<(Seq<u8>, Seq<u8>)>::empty());
        }
        loop
            invariant
                i <= self.entries.len(),
                self@.len() == self.entries.len(),
                out@ == encoded(self@.subrange(0, i as int)),
            decreases self.entries.len() - i,
        {
            if i == self.entries.len() {
                proof {
                    assert(self@.subrange(0, self@.len() as int) =~= self@);
                }
                return out;
            }
            if i > 0 {
                out.push(38);
            }
            out.extend_from_slice(self.entries[i].0.as_slice());
            out.push(61);
            out.extend_from_slice(self.entries[i].1.as_slice());
            proof {
                let pre = self@.subrange(0, i as int);
                let cur = self@.subrange(0, i as int + 1);
                assert(cur.drop_last() =~= pre);
                assert(cur.last() == self@[i as int]);
                if i == 0 {
                    assert(out@ =~= self@[0].0 + seq![61u8] + self@[0].1);
                } else {
                    assert(out@ =~= encoded(pre) + seq![38u8] + self@[i as int].0 + seq![61u8]
                        + self@[i as int].1);
                }
            }
            i = i + 1;
        }
    }
}

/// Updating or inserting an entry at the scan position keeps the keys
/// sorted and performs exactly a map insertion.
proof fn lemma_insert_at(
    s0: Seq<(Seq<u8>, Seq<u8>)>,
    s1: Seq<(Seq<u8>, Seq<u8>)>,
    pos: int,
    key: Seq<u8>,
    value: Seq<u8>,
    found: bool,
)
    requires
        keys_sorted(s0),
        0 <= pos <= s0.len(),
        forall|j: int| 0 <= j < pos ==> key_lt(s0[j].0, key),
        found ==> pos < s0.len() && s0[pos].0 == key && s1 == s0.update(pos, (key, value)),
        !found ==> (pos == s0.len() || key_lt(key, s0[pos].0)) && s1 == s0.insert(
            pos,
            (key, value),
        ),
    ensures
        keys_sorted(s1),
        pairs_map(s1) == pairs_map(s0).insert(key, value),
{
    if found {
        assert forall|i: int, j: int| 0 <= i < j < s1.len() implies key_lt(s1[i].0, s1[j].0) by {
            assert(s0[i].0 == s1[i].0 || i == pos);
            assert(s0[j].0 == s1[j].0 || j == pos);
        }
    } else {
        assert forall|i: int, j: int| 0 <= i < j < s1.len() implies key_lt(s1[i].0, s1[j].0) by {
            if i < pos && j == pos {
            } else if i == pos && j > pos {
                if pos < s0.len() {
                    assert(s1[j].0 == s0[j - 1].0);
                    if j - 1 == pos {
                        assert(key_lt(key, s0[pos].0));
                    } else {
                        lemma_key_lt_trans(key, s0[pos].0, s0[j - 1].0);
                    }
                }
            } else if i < pos && j > pos {
                assert(s1[i].0 == s0[i].0 && s1[j].0 == s0[j - 1].0);
            } else if i > pos && j > pos {
                assert(s1[i].0 == s0[i - 1].0 && s1[j].0 == s0[j - 1].0);
            }
        }
    }
    let m1 = pairs_map(s1);
    let m2 = pairs_map(s0).insert(key, value);
    assert forall|k: Seq<u8>| m1.dom().contains(k) <==> m2.dom().contains(k) by {
        if k == key {
            assert(s1[pos].0 == key);
            assert(has_key(s1, k));
        } else {
            if has_key(s1, k) {
                let i = choose|i: int| 0 <= i < s1.len() && s1[i].0 == k;
                if found {
                    assert(s0[i].0 == k);
                } else {
                    if i < pos {
                        assert(s0[i].0 == k);
                    } else {
                        assert(i > pos);
                        assert(s0[i - 1].0 == k);
                    }
                }
                assert(has_key(s0, k));
            }
            if has_key(s0, k) {
                let i = choose|i: int| 0 <= i < s0.len() && s0[i].0 == k;
                if found {
                    assert(i != pos);
                    assert(s1[i].0 == k);
                } else {
                    if i < pos {
                        assert(s1[i].0 == k);
                    } else {
                        assert(s1[i + 1].0 == k);
                    }
                }
                assert(has_key(s1, k));
            }
        }
    }
    assert(m1.dom() =~= m2.dom());
    assert forall|k: Seq<u8>| m1.dom().contains(k) implies m1[k] == m2[k] by {
        if k == key {
            assert(s1[pos].0 == key && s1[pos].1 == value);
            lemma_map_at(s1, pos);
        } else {
            let i = choose|i: int| 0 <= i < s1.len() && s1[i].0 == k;
            lemma_map_at(s1, i);
            if found {
                assert(i != pos);
                assert(s0[i] == s1[i]);
                lemma_map_at(s0, i);
            } else {
                if i < pos {
                    assert(s0[i] == s1[i]);
                    lemma_map_at(s0, i);
                } else {
                    assert(i > pos);
                    assert(s0[i - 1] == s1[i]);
                    lemma_map_at(s0, i - 1);
                }
            }
        }
    }
    assert(m1 =~= m2);
}

/// In a sorted nonempty sequence, the first key is strictly below every
/// other key of the mapping.
proof fn lemma_first_key_min(s: Seq<(Seq<u8>, Seq<u8>)>, k: Seq<u8>)
    requires
        keys_sorted(s),
        s.len() > 0,
        has_key(s, k),
        k != s[0].0,
    ensures
        key_lt(s[0].0, k),
{
    let i = choose|i: int| 0 <= i < s.len() && s[i].0 == k;
    assert(i > 0);
}

/// Dropping the first entry of a sorted sequence removes exactly its
/// key from the mapping.
proof fn lemma_map_drop_first(s: Seq<(Seq<u8>, Seq<u8>)>)
    requires
        keys_sorted(s),
        s.len() > 0,
    ensures
        keys_sorted(s.drop_first()),
        pairs_map(s.drop_first()) == pairs_map(s).remove(s[0].0),
{
    let t = s.drop_first();
    assert forall|i: int, j: int| 0 <= i < j < t.len() implies key_lt(t[i].0, t[j].0) by {
        assert(t[i].0 == s[i + 1].0 && t[j].0 == s[j + 1].0);
    }
    let m1 = pairs_map(t);
    let m2 = pairs_map(s).remove(s[0].0);
    assert forall|k: Seq<u8>| m1.dom().contains(k) <==> m2.dom().contains(k) by {
        if has_key(t, k) {
            let i = choose|i: int| 0 <= i < t.len() && t[i].0 == k;
            assert(s[i + 1].0 == k);
            assert(has_key(s, k));
            lemma_sorted_key_unique(s, i + 1, i + 1);
            assert(key_lt(s[0].0, s[i + 1].0));
            lemma_key_lt_irrefl(s[0].0);
            assert(k != s[0].0);
        }
        if has_key(s, k) && k != s[0].0 {
            let i = choose|i: int| 0 <= i < s.len() && s[i].0 == k;
            assert(i > 0);
            assert(t[i - 1].0 == k);
            assert(has_key(t, k));
        }
    }
    assert(m1.dom() =~= m2.dom());
    assert forall|k: Seq<u8>| m1.dom().contains(k) implies m1[k] == m2[k] by {
        let i = choose|i: int| 0 <= i < t.len() && t[i].0 == k;
        lemma_map_at(t, i);
        assert(s[i + 1].0 == k);
        lemma_map_at(s, i + 1);
    }
    assert(m1 =~= m2);
}

/// A mapping has exactly one strictly key-sorted entry sequence: two
/// sorted sequences representing the same mapping are equal.
pub proof fn lemma_canonical(a: Seq<(Seq<u8>, Seq<u8>)>, b: Seq<(Seq<u8>, Seq<u8>)>)
    requires
        keys_sorted(a),
        keys_sorted(b),
        pairs_map(a) == pairs_map(b),
    ensures
        a == b,
    decreases a.len(),
{
    if a.len() == 0 {
        if b.len() > 0 {
            assert(has_key(b, b[0].0));
            assert(pairs_map(b).dom().contains(b[0].0));
            assert(has_key(a, b[0].0));
        }
        assert(a =~= b);
    } else {
        if b.len() == 0 {
            assert(has_key(a, a[0].0));
            assert(pairs_map(a).dom().contains(a[0].0));
            assert(has_key(b, a[0].0));
        }
        assert(b.len() > 0);
        let ka = a[0].0;
        let kb = b[0].0;
        assert(has_key(a, ka) && has_key(b, kb));
        lemma_map_at(a, 0);
        lemma_map_at(b, 0);
        assert(pairs_map(b).dom().contains(ka));
        assert(has_key(b, ka));
        assert(pairs_map(a).dom().contains(kb));
        assert(has_key(a, kb));
        if ka != kb {
            lemma_first_key_min(b, ka);
            lemma_first_key_min(a, kb);
            lemma_key_lt_asym(kb, ka);
        }
        assert(ka == kb);
        assert(pairs_map(a)[ka] == a[0].1);
        assert(pairs_map(b)[ka] == b[0].1);
        assert(a[0].1 == b[0].1);
        lemma_map_drop_first(a);
        lemma_map_drop_first(b);
        lemma_canonical(a.drop_first(), b.drop_first());
        assert forall|i: int| 0 <= i < a.len() implies a[i] == b[i] by {
            if i > 0 {
                assert(a.drop_first()[i - 1] == b.drop_first()[i - 1]);
            }
        }
        assert(a.len() == b.len());
        assert(a =~= b);
    }
}

/// Encoding stability: two canonical parameter sets that represent the
/// same mapping encode to byte-identical bodies.
pub proof fn lemma_encode_deterministic(a: &ParameterSet, b: &ParameterSet)
    requires
        a.wf(),
        b.wf(),
        a.as_map() == b.as_map(),
    ensures
        encoded(a@) == encoded(b@),
{
    lemma_canonical(a@, b@);
}

} // verus!
