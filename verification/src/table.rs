use vstd::prelude::*;

use crate::account::AccountId;

verus! {

/// Keys that can be compared at run time with the same meaning as `==` in specifications.
pub trait TableKey: Sized {
    fn same_key(&self, other: &Self) -> (r: bool)
        ensures
            r == (*self == *other),
    ;
}

impl TableKey for AccountId {
    fn same_key(&self, other: &Self) -> (r: bool) {
        self.same(other)
    }
}

impl TableKey for (AccountId, AccountId) {
    fn same_key(&self, other: &Self) -> (r: bool) {
        self.0.same(&other.0) && self.1.same(&other.1)
    }
}

impl TableKey for u16 {
    fn same_key(&self, other: &Self) -> (r: bool) {
        *self == *other
    }
}

/// The map that a list of entries stands for: a later entry for a key wins.
pub open spec fn entries_map<K, V>(s: Seq<(K, V)>) -> Map<K, V>
    decreases s.len(),
{
    if s.len() == 0 {
        Map::empty()
    } else {
        entries_map(s.drop_last()).insert(s.last().0, s.last().1)
    }
}

/// No key occurs twice in the list.
pub open spec fn distinct_keys<K, V>(s: Seq<(K, V)>) -> bool {
    forall|i: int, j: int| 0 <= i < j < s.len() ==> s[i].0 != s[j].0
}

pub proof fn lemma_entries_map_contains<K, V>(s: Seq<(K, V)>, k: K)
    ensures
        entries_map(s).contains_key(k) <==> exists|i: int| 0 <= i < s.len() && s[i].0 == k,
    decreases s.len(),
{
    if s.len() > 0 {
        lemma_entries_map_contains(s.drop_last(), k);
        if entries_map(s.drop_last()).contains_key(k) {
            let i = choose|i: int| 0 <= i < s.drop_last().len() && s.drop_last()[i].0 == k;
            assert(s[i].0 == k);
        }
        if exists|i: int| 0 <= i < s.len() && s[i].0 == k {
            let i = choose|i: int| 0 <= i < s.len() && s[i].0 == k;
            if i < s.len() - 1 {
                assert(s.drop_last()[i].0 == k);
            }
        }
    }
}

pub proof fn lemma_entries_map_index<K, V>(s: Seq<(K, V)>, i: int)
    requires
        distinct_keys(s),
        0 <= i < s.len(),
    ensures
        entries_map(s).contains_key(s[i].0),
        entries_map(s)[s[i].0] == s[i].1,
    decreases s.len(),
{
    if i < s.len() - 1 {
        lemma_entries_map_index(s.drop_last(), i);
    }
}

pub proof fn lemma_entries_update<K, V>(s: Seq<(K, V)>, i: int, v: V)
    requires
        distinct_keys(s),
        0 <= i < s.len(),
    ensures
        distinct_keys(s.update(i, (s[i].0, v))),
        entries_map(s.update(i, (s[i].0, v))) =~= entries_map(s).insert(s[i].0, v),
    decreases s.len(),
{
    let t = s.update(i, (s[i].0, v));
    if i == s.len() - 1 {
        assert(t.drop_last() =~= s.drop_last());
        lemma_entries_map_contains(s.drop_last(), s[i].0);
    } else {
        lemma_entries_update(s.drop_last(), i, v);
        assert(t.drop_last() =~= s.drop_last().update(i, (s[i].0, v)));
    }
}

pub proof fn lemma_entries_push<K, V>(s: Seq<(K, V)>, k: K, v: V)
    requires
        distinct_keys(s),
        !entries_map(s).contains_key(k),
    ensures
        distinct_keys(s.push((k, v))),
        entries_map(s.push((k, v))) == entries_map(s).insert(k, v),
{
    lemma_entries_map_contains(s, k);
    assert(s.push((k, v)).drop_last() =~= s);
}

/// The sum of the values of a finite map.
pub open spec fn map_total<K>(m: Map<K, u128>) -> int
    decreases m.dom().len(),
    when m.dom().finite()
{
    if m.dom().len() == 0 {
        0
    } else {
        let k = m.dom().choose();
        m[k] + map_total(m.remove(k))
    }
}

/// The sum of the values of a finite map is not negative.
pub proof fn lemma_map_total_nonnegative<K>(m: Map<K, u128>)
    requires
        m.dom().finite(),
    ensures
        map_total(m) >= 0,
    decreases m.dom().len(),
{
    if m.dom().len() > 0 {
        let k = m.dom().choose();
        lemma_map_total_nonnegative(m.remove(k));
    }
}

/// The sum of the values of a finite map is the value at any key plus the sum of the rest.
pub proof fn lemma_map_total_remove<K>(m: Map<K, u128>, k: K)
    requires
        m.dom().finite(),
        m.dom().contains(k),
    ensures
        map_total(m) == m[k] + map_total(m.remove(k)),
    decreases m.dom().len(),
{
    let c = m.dom().choose();
    if c != k {
        lemma_map_total_remove(m.remove(c), k);
        lemma_map_total_remove(m.remove(k), c);
        assert(m.remove(c).remove(k) =~= m.remove(k).remove(c));
    }
}

/// Storing `v` at `k` changes the sum of the values by `v` less what was stored there.
pub proof fn lemma_map_total_insert<K>(m: Map<K, u128>, k: K, v: u128)
    requires
        m.dom().finite(),
    ensures
        m.insert(k, v).dom().finite(),
        map_total(m.insert(k, v)) == map_total(m) - (if m.dom().contains(k) {
            m[k] as int
        } else {
            0
        }) + v,
{
    lemma_map_total_remove(m.insert(k, v), k);
    if m.dom().contains(k) {
        lemma_map_total_remove(m, k);
        assert(m.insert(k, v).remove(k) =~= m.remove(k));
    } else {
        assert(m.insert(k, v).remove(k) =~= m);
    }
}

/// Every value of a finite map is at most the sum of the values, and two values stored at
/// different keys together are too.
pub proof fn lemma_map_total_bounds<K>(m: Map<K, u128>, a: K, b: K)
    requires
        m.dom().finite(),
    ensures
        map_total(m) >= 0,
        m.dom().contains(a) ==> m[a] <= map_total(m),
        a != b && m.dom().contains(a) && m.dom().contains(b) ==> m[a] + m[b] <= map_total(m),
{
    lemma_map_total_nonnegative(m);
    if m.dom().contains(a) {
        lemma_map_total_remove(m, a);
        lemma_map_total_nonnegative(m.remove(a));
        if a != b && m.dom().contains(b) {
            lemma_map_total_remove(m.remove(a), b);
            lemma_map_total_nonnegative(m.remove(a).remove(b));
        }
    }
}

proof fn lemma_entries_map_finite<K, V>(s: Seq<(K, V)>)
    ensures
        entries_map(s).dom().finite(),
    decreases s.len(),
{
    if s.len() > 0 {
        lemma_entries_map_finite(s.drop_last());
    }
}

/// A finite map kept as a list of entries with distinct keys.
pub struct Table<K, V> {
    entries: Vec<(K, V)>,
}

impl<K, V> View for Table<K, V> {
    type V = Map<K, V>;

    closed spec fn view(&self) -> Map<K, V> {
        entries_map(self.entries@)
    }
}

impl<K, V> Table<K, V> {
    #[verifier::type_invariant]
    closed spec fn inv(self) -> bool {
        distinct_keys(self.entries@)
    }
}

impl<K: TableKey + Copy, V: Copy> Table<K, V> {
    /// A table holds finitely many entries.
    pub proof fn lemma_finite(self)
        ensures
            self@.dom().finite(),
    {
        lemma_entries_map_finite(self.entries@);
    }

    pub fn new() -> (t: Self)
        ensures
            t@ == Map::<K, V>::empty(),
    {
        Table { entries: Vec::new() }
    }

    fn find_in(&self, entries: &Vec<(K, V)>, k: &K) -> (r: Option<usize>)
        ensures
            match r {
                Some(i) => i < entries@.len() && entries@[i as int].0 == *k,
                None => !entries_map(entries@).contains_key(*k),
            },
    {
        let mut i: usize = 0;
        while i < entries.len()
            invariant
                0 <= i <= entries@.len(),
                forall|j: int| 0 <= j < i ==> entries@[j].0 != *k,
            decreases entries@.len() - i,
        {
            if entries[i].0.same_key(k) {
                return Some(i);
            }
            i = i + 1;
        }
        proof {
            lemma_entries_map_contains(entries@, *k);
        }
        None
    }

    /// The value stored for `k`, if any.
    pub fn get(&self, k: &K) -> (r: Option<V>)
        ensures
            r == (if self@.contains_key(*k) { Some(self@[*k]) } else { None }),
    {
        proof {
            use_type_invariant(self);
        }
        match self.find_in(&self.entries, k) {
            Some(i) => {
                proof {
                    lemma_entries_map_index(self.entries@, i as int);
                }
                Some(self.entries[i].1)
            },
            None => None,
        }
    }

    /// Stores `v` for `k`, replacing what was stored before.
    pub fn insert(&mut self, k: K, v: V)
        ensures
            final(self)@ == old(self)@.insert(k, v),
    {
        proof {
            use_type_invariant(&*self);
        }
        let ghost before = self.entries@;
        let mut entries = Vec::new();
        std::mem::swap(&mut entries, &mut self.entries);
        match self.find_in(&entries, &k) {
            Some(i) => {
                proof {
                    lemma_entries_map_index(before, i as int);
                    lemma_entries_update(before, i as int, v);
                }
                entries.set(i, (k, v));
            },
            None => {
                proof {
                    lemma_entries_push(before, k, v);
                }
                entries.push((k, v));
            },
        }
        self.entries = entries;
    }
}

} // verus!
