//! The in-memory backend: a reference implementation of the store interface
//! over a plain association list, with categories mapped to fixed key
//! prefixes.

use vstd::prelude::*;

use crate::database::{DataCategory, Database};
use crate::error::DatabaseError;

verus! {

/// The fixed byte prefix that partitions the shared key space of the
/// in-memory backend. Every prefix starts with a letter that no other
/// prefix starts with, so identical raw keys under distinct categories can
/// never collide.
pub open spec fn spec_prefix(category: DataCategory) -> Seq<u8> {
    match category {
        DataCategory::State => seq![
            's' as u8,
            't' as u8,
            'a' as u8,
            't' as u8,
            'e' as u8,
            '-' as u8,
        ],
        DataCategory::Headers => seq![
            'h' as u8,
            'e' as u8,
            'a' as u8,
            'd' as u8,
            'e' as u8,
            'r' as u8,
            's' as u8,
            '-' as u8,
        ],
        DataCategory::Bodies => seq![
            'b' as u8,
            'o' as u8,
            'd' as u8,
            'i' as u8,
            'e' as u8,
            's' as u8,
            '-' as u8,
        ],
        DataCategory::Extra => seq![
            'e' as u8,
            'x' as u8,
            't' as u8,
            'r' as u8,
            'a' as u8,
            '-' as u8,
        ],
        DataCategory::Trace => seq![
            't' as u8,
            'r' as u8,
            'a' as u8,
            'c' as u8,
            'e' as u8,
            '-' as u8,
        ],
        DataCategory::AccountBloom => seq![
            'a' as u8,
            'c' as u8,
            'c' as u8,
            'o' as u8,
            'u' as u8,
            'n' as u8,
            't' as u8,
            '-' as u8,
            'b' as u8,
            'l' as u8,
            'o' as u8,
            'o' as u8,
            'm' as u8,
            '-' as u8,
        ],
        DataCategory::Other => seq![
            'o' as u8,
            't' as u8,
            'h' as u8,
            'e' as u8,
            'r' as u8,
            '-' as u8,
        ],
    }
}

/// The key under which a pair is stored in the shared map: the raw key,
/// prefixed with the category's tag when a category is given.
pub open spec fn spec_gen_key(category: Option<DataCategory>, key: Seq<u8>) -> Seq<u8> {
    match category {
        Some(c) => spec_prefix(c) + key,
        None => key,
    }
}

/// Distinct categories (including the un-namespaced space) store the same
/// raw key under distinct map keys: the prefixing is injective in the
/// category.
pub proof fn lemma_gen_key_injective(
    c1: Option<DataCategory>,
    c2: Option<DataCategory>,
    key: Seq<u8>,
)
    ensures
        c1 != c2 ==> spec_gen_key(c1, key) != spec_gen_key(c2, key),
{
    let k1 = spec_gen_key(c1, key);
    let k2 = spec_gen_key(c2, key);
    if c1 != c2 && k1 == k2 {
        match (c1, c2) {
            (Option::None, Option::None) => {
                assert(false);
            },
            (Option::None, Option::Some(b)) => {
                assert(spec_prefix(b).len() > 0);
                assert(k1.len() < k2.len());
            },
            (Option::Some(a), Option::None) => {
                assert(spec_prefix(a).len() > 0);
                assert(k2.len() < k1.len());
            },
            (Option::Some(a), Option::Some(b)) => {
                assert(spec_prefix(a).len() > 0);
                assert(spec_prefix(b).len() > 0);
                assert(k1[0] == spec_prefix(a)[0]);
                assert(k2[0] == spec_prefix(b)[0]);
                assert(spec_prefix(a)[0] != spec_prefix(b)[0]);
            },
        }
    }
}

fn prefix_bytes(category: DataCategory) -> (r: Vec<u8>)
    ensures
        r@ == spec_prefix(category),
{
    let mut v: Vec<u8> = Vec::new();
    match category {
        DataCategory::State => {
            v.push('s' as u8);
            v.push('t' as u8);
            v.push('a' as u8);
            v.push('t' as u8);
            v.push('e' as u8);
            v.push('-' as u8);
        },
        DataCategory::Headers => {
            v.push('h' as u8);
            v.push('e' as u8);
            v.push('a' as u8);
            v.push('d' as u8);
            v.push('e' as u8);
            v.push('r' as u8);
            v.push('s' as u8);
            v.push('-' as u8);
        },
        DataCategory::Bodies => {
            v.push('b' as u8);
            v.push('o' as u8);
            v.push('d' as u8);
            v.push('i' as u8);
            v.push('e' as u8);
            v.push('s' as u8);
            v.push('-' as u8);
        },
        DataCategory::Extra => {
            v.push('e' as u8);
            v.push('x' as u8);
            v.push('t' as u8);
            v.push('r' as u8);
            v.push('a' as u8);
            v.push('-' as u8);
        },
        DataCategory::Trace => {
            v.push('t' as u8);
            v.push('r' as u8);
            v.push('a' as u8);
            v.push('c' as u8);
            v.push('e' as u8);
            v.push('-' as u8);
        },
        DataCategory::AccountBloom => {
            v.push('a' as u8);
            v.push('c' as u8);
            v.push('c' as u8);
            v.push('o' as u8);
            v.push('u' as u8);
            v.push('n' as u8);
            v.push('t' as u8);
            v.push('-' as u8);
            v.push('b' as u8);
            v.push('l' as u8);
            v.push('o' as u8);
            v.push('o' as u8);
            v.push('m' as u8);
            v.push('-' as u8);
        },
        DataCategory::Other => {
            v.push('o' as u8);
            v.push('t' as u8);
            v.push('h' as u8);
            v.push('e' as u8);
            v.push('r' as u8);
            v.push('-' as u8);
        },
    }
    proof {
        assert(v@ =~= spec_prefix(category));
    }
    v
}

/// Builds the map key of a raw key under a category.
pub fn gen_key(category: &Option<DataCategory>, key: Vec<u8>) -> (r: Vec<u8>)
    ensures
        r@ == spec_gen_key(*category, key@),
{
    match category {
        Some(c) => {
            let mut out = prefix_bytes(*c);
            let mut tail = key;
            out.append(&mut tail);
            out
        },
        None => key,
    }
}

/// Copies a byte sequence.
fn copy_bytes(src: &Vec<u8>) -> (r: Vec<u8>)
    ensures
        r@ == src@,
{
    let mut out: Vec<u8> = Vec::new();
    let mut i: usize = 0;
    while i < src.len()
        invariant
            i <= src@.len(),
            out@ =~= src@.subrange(0, i as int),
        decreases src@.len() - i,
    {
        out.push(src[i]);
        i = i + 1;
    }
    proof {
        assert(out@ =~= src@);
    }
    out
}

/// Builds the map key of every raw key of a batch, in order.
pub fn gen_keys(category: &Option<DataCategory>, keys: Vec<Vec<u8>>) -> (r: Vec<Vec<u8>>)
    ensures
        r@.len() == keys@.len(),
        forall|i: int| 0 <= i < keys@.len() ==> (#[trigger] r@[i])@ == spec_gen_key(
            *category,
            keys@[i]@,
        ),
{
    let mut out: Vec<Vec<u8>> = Vec::new();
    let mut i: usize = 0;
    while i < keys.len()
        invariant
            i <= keys@.len(),
            out@.len() == i,
            forall|j: int| 0 <= j < i ==> (#[trigger] out@[j])@ == spec_gen_key(
                *category,
                keys@[j]@,
            ),
        decreases keys@.len() - i,
    {
        out.push(gen_key(category, copy_bytes(&keys[i])));
        i = i + 1;
    }
    out
}

/// The mathematical map held by an association list; a later pair with the
/// same key overrides an earlier one.
pub open spec fn storage_map(s: Seq<(Vec<u8>, Vec<u8>)>) -> Map<Seq<u8>, Seq<u8>>
    decreases s.len(),
{
    if s.len() == 0 {
        Map::empty()
    } else {
        storage_map(s.drop_last()).insert(s.last().0@, s.last().1@)
    }
}

/// No two pairs of the list hold the same key.
pub open spec fn distinct_keys(s: Seq<(Vec<u8>, Vec<u8>)>) -> bool {
    forall|i: int, j: int|
        0 <= i < j < s.len() ==> (#[trigger] s[i]).0@ != (#[trigger] s[j]).0@
}

proof fn lemma_storage_map_domain(s: Seq<(Vec<u8>, Vec<u8>)>, k: Seq<u8>)
    ensures
        storage_map(s).contains_key(k) <==> exists|i: int|
            0 <= i < s.len() && (#[trigger] s[i]).0@ == k,
    decreases s.len(),
{
    if s.len() > 0 {
        lemma_storage_map_domain(s.drop_last(), k);
        if s.last().0@ == k {
            assert(s[s.len() - 1].0@ == k);
        } else if storage_map(s).contains_key(k) {
            let i = choose|i: int| 0 <= i < s.drop_last().len() && (#[trigger] s.drop_last()[i]).0@
                == k;
            assert(s[i].0@ == k);
        } else {
            assert forall|i: int| 0 <= i < s.len() implies (#[trigger] s[i]).0@ != k by {
                if i < s.len() - 1 {
                    assert(s.drop_last()[i] == s[i]);
                }
            }
        }
    }
}

proof fn lemma_storage_map_value(s: Seq<(Vec<u8>, Vec<u8>)>, i: int)
    requires
        distinct_keys(s),
        0 <= i < s.len(),
    ensures
        storage_map(s).contains_key(s[i].0@),
        storage_map(s)[s[i].0@] == s[i].1@,
    decreases s.len(),
{
    if i < s.len() - 1 {
        assert(distinct_keys(s.drop_last()));
        assert(s.drop_last()[i] == s[i]);
        lemma_storage_map_value(s.drop_last(), i);
        assert(s[i].0@ != s.last().0@);
    }
}

proof fn lemma_distinct_remove(s: Seq<(Vec<u8>, Vec<u8>)>, i: int)
    requires
        distinct_keys(s),
        0 <= i < s.len(),
    ensures
        distinct_keys(s.remove(i)),
{
    s.remove_ensures(i);
    assert forall|a: int, b: int|
        0 <= a < b < s.remove(i).len() implies (#[trigger] s.remove(i)[a]).0@ != (#[trigger] s.remove(
        i,
    )[b]).0@ by {
        let a0 = if a < i {
            a
        } else {
            a + 1
        };
        let b0 = if b < i {
            b
        } else {
            b + 1
        };
        assert(s.remove(i)[a] == s[a0]);
        assert(s.remove(i)[b] == s[b0]);
    }
}

proof fn lemma_storage_map_remove(s: Seq<(Vec<u8>, Vec<u8>)>, i: int)
    requires
        distinct_keys(s),
        0 <= i < s.len(),
    ensures
        storage_map(s.remove(i)) == storage_map(s).remove(s[i].0@),
    decreases s.len(),
{
    s.remove_ensures(i);
    if i == s.len() - 1 {
        assert(s.remove(i) =~= s.drop_last());
        lemma_storage_map_domain(s.drop_last(), s[i].0@);
        assert forall|j: int| 0 <= j < s.drop_last().len() implies (#[trigger] s.drop_last()[j]).0@
            != s[i].0@ by {
            assert(s.drop_last()[j] == s[j]);
        }
        assert(storage_map(s.drop_last()).remove(s[i].0@) =~= storage_map(s.drop_last()));
    } else {
        let t = s.remove(i);
        assert(t.last() == s.last());
        assert(t.drop_last() =~= s.drop_last().remove(i));
        assert(distinct_keys(s.drop_last()));
        lemma_storage_map_remove(s.drop_last(), i);
        assert(s.drop_last()[i] == s[i]);
        // the removed key differs from the last key, so removal and the
        // final insert commute
        assert(s[i].0@ != s.last().0@);
        assert(storage_map(t) =~= storage_map(s).remove(s[i].0@));
    }
}

/// The value visible under a category and a raw key in a shared map `m`
/// whose keys carry the category prefixes.
pub open spec fn mem_lookup(
    m: Map<Seq<u8>, Seq<u8>>,
    category: Option<DataCategory>,
    key: Seq<u8>,
) -> Option<Seq<u8>> {
    let k = spec_gen_key(category, key);
    if m.contains_key(k) {
        Some(m[k])
    } else {
        None
    }
}

/// The map after the first `n` pairs of a batch were inserted in order.
pub open spec fn spec_insert_upto(
    m: Map<Seq<u8>, Seq<u8>>,
    category: Option<DataCategory>,
    keys: Seq<Seq<u8>>,
    values: Seq<Seq<u8>>,
    n: int,
) -> Map<Seq<u8>, Seq<u8>>
    decreases n,
{
    if n <= 0 {
        m
    } else {
        spec_insert_upto(m, category, keys, values, n - 1).insert(
            spec_gen_key(category, keys[n - 1]),
            values[n - 1],
        )
    }
}

/// The map after the first `n` keys of a batch were removed in order.
pub open spec fn spec_remove_upto(
    m: Map<Seq<u8>, Seq<u8>>,
    category: Option<DataCategory>,
    keys: Seq<Seq<u8>>,
    n: int,
) -> Map<Seq<u8>, Seq<u8>>
    decreases n,
{
    if n <= 0 {
        m
    } else {
        spec_remove_upto(m, category, keys, n - 1).remove(spec_gen_key(category, keys[n - 1]))
    }
}

/// A process-local store backed by a plain association list behind a single
/// shared map; it validates the store interface in tests. It does not
/// support iteration, restore, or a close/reopen lifecycle: `iterator`
/// yields nothing, `restore` reports an internal error, and `close` has no
/// effect.
pub struct MemoryDB {
    storage: Vec<(Vec<u8>, Vec<u8>)>,
}

impl MemoryDB {
    /// The shared map this store holds, with category prefixes on its keys.
    pub closed spec fn raw(&self) -> Map<Seq<u8>, Seq<u8>> {
        storage_map(self.storage@)
    }

    /// The store's internal invariant: no key is held twice.
    pub closed spec fn inv(&self) -> bool {
        distinct_keys(self.storage@)
    }

    /// Opens a fresh, empty in-memory store.
    pub fn open() -> (db: MemoryDB)
        ensures
            db.inv(),
            db.raw() == Map::<Seq<u8>, Seq<u8>>::empty(),
    {
        MemoryDB { storage: Vec::new() }
    }

    fn find_index(&self, needle: &Vec<u8>) -> (r: Option<usize>)
        ensures
            match r {
                Some(i) => i < self.storage@.len() && self.storage@[i as int].0@ == needle@,
                None => forall|i: int|
                    0 <= i < self.storage@.len() ==> (#[trigger] self.storage@[i]).0@ != needle@,
            },
    {
        let mut i: usize = 0;
        while i < self.storage.len()
            invariant
                i <= self.storage@.len(),
                forall|j: int| 0 <= j < i ==> (#[trigger] self.storage@[j]).0@ != needle@,
            decreases self.storage@.len() - i,
        {
            if bytes_eq(&self.storage[i].0, needle) {
                return Some(i);
            }
            i = i + 1;
        }
        None
    }
}

fn bytes_eq(a: &Vec<u8>, b: &Vec<u8>) -> (r: bool)
    ensures
        r == (a@ == b@),
{
    if a.len() != b.len() {
        return false;
    }
    let mut i: usize = 0;
    while i < a.len()
        invariant
            a@.len() == b@.len(),
            i <= a@.len(),
            forall|j: int| 0 <= j < i ==> a@[j] == b@[j],
        decreases a@.len() - i,
    {
        if a[i] != b[i] {
            return false;
        }
        i = i + 1;
    }
    proof {
        assert(a@ =~= b@);
    }
    true
}

impl Default for MemoryDB {
    /// Opens a fresh, empty in-memory store.
    fn default() -> (db: MemoryDB)
        ensures
            db.inv(),
            db.raw() == Map::<Seq<u8>, Seq<u8>>::empty(),
    {
        MemoryDB::open()
    }
}

impl Database for MemoryDB {
    open spec fn wf(&self) -> bool {
        self.inv()
    }

    open spec fn entry(&self, category: Option<DataCategory>, key: Seq<u8>) -> Option<Seq<u8>> {
        mem_lookup(self.raw(), category, key)
    }

    open spec fn reads_fail(&self) -> bool {
        false
    }

    open spec fn writes_fail(&self) -> bool {
        false
    }

    open spec fn insert_post(
        self,
        post: Self,
        category: Option<DataCategory>,
        key: Seq<u8>,
        value: Seq<u8>,
    ) -> bool {
        post.raw() == self.raw().insert(spec_gen_key(category, key), value)
    }

    open spec fn insert_batch_post(
        self,
        post: Self,
        category: Option<DataCategory>,
        keys: Seq<Seq<u8>>,
        values: Seq<Seq<u8>>,
    ) -> bool {
        post.raw() == spec_insert_upto(self.raw(), category, keys, values, keys.len() as int)
    }

    open spec fn remove_post(
        self,
        post: Self,
        category: Option<DataCategory>,
        key: Seq<u8>,
    ) -> bool {
        post.raw() == self.raw().remove(spec_gen_key(category, key))
    }

    open spec fn remove_batch_post(
        self,
        post: Self,
        category: Option<DataCategory>,
        keys: Seq<Seq<u8>>,
    ) -> bool {
        post.raw() == spec_remove_upto(self.raw(), category, keys, keys.len() as int)
    }

    open spec fn restore_post(self, post: Self, new_db: Seq<char>, r: Result<
        (),
        DatabaseError,
    >) -> bool {
        &&& post == self
        &&& r matches Err(e) && e matches DatabaseError::Internal(d) && d@
            == "unsupported operation"@
    }

    open spec fn iterator_post(&self, category: Option<DataCategory>, r: Option<
        Vec<(Vec<u8>, Vec<u8>)>,
    >) -> bool {
        r is None
    }

    open spec fn close_post(self, post: Self) -> bool {
        post == self
    }

    fn get(&self, category: Option<DataCategory>, key: &[u8]) -> (r: Result<
        Option<Vec<u8>>,
        DatabaseError,
    >) {
        let k = gen_key(&category, vstd::slice::slice_to_vec(key));
        match self.find_index(&k) {
            Some(i) => {
                let v = copy_bytes(&self.storage[i].1);
                proof {
                    lemma_storage_map_value(self.storage@, i as int);
                    assert(v.deep_view() =~= self.storage@[i as int].1@);
                }
                Ok(Some(v))
            },
            None => {
                proof {
                    lemma_storage_map_domain(self.storage@, k@);
                }
                Ok(None)
            },
        }
    }

    fn get_batch(&self, category: Option<DataCategory>, keys: &[Vec<u8>]) -> (r: Result<
        Vec<Option<Vec<u8>>>,
        DatabaseError,
    >) {
        let mut vals: Vec<Option<Vec<u8>>> = Vec::new();
        let mut i: usize = 0;
        while i < keys.len()
            invariant
                self.wf(),
                i <= keys@.len(),
                vals@.len() == i,
                forall|j: int| 0 <= j < i ==> (#[trigger] vals@[j]).deep_view() == self.entry(
                    category,
                    keys@[j]@,
                ),
            decreases keys@.len() - i,
        {
            match self.get(category, &keys[i]) {
                Ok(v) => vals.push(v),
                Err(e) => {
                    return Err(e);
                },
            }
            i = i + 1;
        }
        Ok(vals)
    }

    fn insert(&mut self, category: Option<DataCategory>, key: Vec<u8>, value: Vec<u8>) -> (r:
        Result<(), DatabaseError>) {
        let k = gen_key(&category, key);
        match self.find_index(&k) {
            Some(i) => {
                proof {
                    lemma_storage_map_remove(self.storage@, i as int);
                    lemma_distinct_remove(self.storage@, i as int);
                    self.storage@.remove_ensures(i as int);
                }
                let ghost pre = self.storage@;
                self.storage.remove(i);
                let ghost mid = self.storage@;
                self.storage.push((k, value));
                proof {
                    assert(self.storage@.drop_last() =~= mid);
                    assert(self.storage@.last() == (k, value));
                    assert(storage_map(self.storage@) == storage_map(mid).insert(k@, value@));
                    assert forall|a: int, b: int|
                        0 <= a < b < self.storage@.len() implies (#[trigger] self.storage@[a]).0@
                        != (#[trigger] self.storage@[b]).0@ by {
                        if b == self.storage@.len() - 1 {
                            assert(self.storage@[a] == mid[a]);
                        }
                    }
                    assert(storage_map(self.storage@) =~= old(self).raw().insert(
                        spec_gen_key(category, key@),
                        value@,
                    ));
                }
                Ok(())
            },
            None => {
                let ghost pre = self.storage@;
                self.storage.push((k, value));
                proof {
                    assert(self.storage@.drop_last() =~= pre);
                    assert(self.storage@.last() == (k, value));
                    assert(storage_map(self.storage@) == storage_map(pre).insert(k@, value@));
                    assert(storage_map(self.storage@) =~= old(self).raw().insert(
                        spec_gen_key(category, key@),
                        value@,
                    ));
                }
                Ok(())
            },
        }
    }

    fn insert_batch(
        &mut self,
        category: Option<DataCategory>,
        keys: Vec<Vec<u8>>,
        values: Vec<Vec<u8>>,
    ) -> (r: Result<(), DatabaseError>) {
        if keys.len() != values.len() {
            return Err(DatabaseError::InvalidData);
        }
        let mut i: usize = 0;
        while i < keys.len()
            invariant
                self.wf(),
                i <= keys@.len(),
                keys@.len() == values@.len(),
                storage_map(self.storage@) == spec_insert_upto(
                    old(self).raw(),
                    category,
                    keys.deep_view(),
                    values.deep_view(),
                    i as int,
                ),
            decreases keys@.len() - i,
        {
            let k = copy_bytes(&keys[i]);
            let v = copy_bytes(&values[i]);
            proof {
                assert(k@ =~= keys.deep_view()[i as int]);
                assert(v@ =~= values.deep_view()[i as int]);
            }
            let result = self.insert(category, k, v);
            proof {
                assert(result is Ok);
            }
            i = i + 1;
        }
        Ok(())
    }

    fn contains(&self, category: Option<DataCategory>, key: &[u8]) -> (r: Result<
        bool,
        DatabaseError,
    >) {
        let k = gen_key(&category, vstd::slice::slice_to_vec(key));
        match self.find_index(&k) {
            Some(i) => {
                proof {
                    lemma_storage_map_value(self.storage@, i as int);
                }
                Ok(true)
            },
            None => {
                proof {
                    lemma_storage_map_domain(self.storage@, k@);
                }
                Ok(false)
            },
        }
    }

    fn remove(&mut self, category: Option<DataCategory>, key: &[u8]) -> (r: Result<
        (),
        DatabaseError,
    >) {
        let k = gen_key(&category, vstd::slice::slice_to_vec(key));
        match self.find_index(&k) {
            Some(i) => {
                proof {
                    lemma_storage_map_remove(self.storage@, i as int);
                    lemma_distinct_remove(self.storage@, i as int);
                }
                self.storage.remove(i);
                Ok(())
            },
            None => {
                proof {
                    lemma_storage_map_domain(self.storage@, k@);
                    assert(old(self).raw().remove(k@) =~= old(self).raw());
                }
                Ok(())
            },
        }
    }

    fn remove_batch(&mut self, category: Option<DataCategory>, keys: &[Vec<u8>]) -> (r: Result<
        (),
        DatabaseError,
    >) {
        let mut i: usize = 0;
        while i < keys.len()
            invariant
                self.wf(),
                i <= keys@.len(),
                storage_map(self.storage@) == spec_remove_upto(
                    old(self).raw(),
                    category,
                    keys.deep_view(),
                    i as int,
                ),
            decreases keys@.len() - i,
        {
            proof {
                assert(keys@[i as int]@ =~= keys.deep_view()[i as int]);
            }
            let result = self.remove(category, &keys[i]);
            proof {
                assert(result is Ok);
            }
            i = i + 1;
        }
        Ok(())
    }

    fn restore(&mut self, new_db: &str) -> (r: Result<(), DatabaseError>) {
        Err(DatabaseError::Internal("unsupported operation".to_owned()))
    }

    fn iterator(&self, category: Option<DataCategory>) -> (r: Option<Vec<(Vec<u8>, Vec<u8>)>>) {
        None
    }

    fn close(&mut self) {
    }
}

/// Inserting a value and reading the same key back under the same category
/// yields that value, and removing a key makes the same read yield absence.
pub proof fn lemma_insert_then_get(
    m: Map<Seq<u8>, Seq<u8>>,
    category: Option<DataCategory>,
    key: Seq<u8>,
    value: Seq<u8>,
)
    ensures
        mem_lookup(m.insert(spec_gen_key(category, key), value), category, key) == Some(value),
        mem_lookup(m.remove(spec_gen_key(category, key)), category, key) == None::<Seq<u8>>,
{
}

/// Reads, membership tests and removals under one category never observe a
/// write made under a different category to the identical raw key: the two
/// slots are distinct.
pub proof fn lemma_category_isolation(
    m: Map<Seq<u8>, Seq<u8>>,
    c1: Option<DataCategory>,
    c2: Option<DataCategory>,
    key: Seq<u8>,
    value: Seq<u8>,
)
    requires
        c1 != c2,
    ensures
        mem_lookup(m.insert(spec_gen_key(c1, key), value), c2, key) == mem_lookup(m, c2, key),
        mem_lookup(m.remove(spec_gen_key(c1, key)), c2, key) == mem_lookup(m, c2, key),
{
    lemma_gen_key_injective(c1, c2, key);
}

/// Inserting the same pair twice leaves the same store as inserting it
/// once.
pub proof fn lemma_insert_idempotent(
    m: Map<Seq<u8>, Seq<u8>>,
    category: Option<DataCategory>,
    key: Seq<u8>,
    value: Seq<u8>,
)
    ensures
        m.insert(spec_gen_key(category, key), value).insert(spec_gen_key(category, key), value)
            == m.insert(spec_gen_key(category, key), value),
{
    let k = spec_gen_key(category, key);
    assert(m.insert(k, value).insert(k, value) =~= m.insert(k, value));
}

/// Removing a key that is already absent leaves the store unchanged.
pub proof fn lemma_remove_absent_noop(
    m: Map<Seq<u8>, Seq<u8>>,
    category: Option<DataCategory>,
    key: Seq<u8>,
)
    requires
        mem_lookup(m, category, key) is None,
    ensures
        m.remove(spec_gen_key(category, key)) == m,
{
    assert(m.remove(spec_gen_key(category, key)) =~= m);
}

} // verus!
