use vstd::prelude::*;

verus! {

/// A record kept in a [`Table`], identified by a string key.
pub trait Row: Sized {
    spec fn key_of(&self) -> Seq<char>;

    fn key(&self) -> (r: &String)
        ensures
            r@ == self.key_of(),
    ;

    fn copy_row(&self) -> (r: Self)
        ensures
            r == *self,
    ;
}

/// No two rows share a key.
pub open spec fn keys_unique<T: Row>(s: Seq<T>) -> bool {
    forall|i: int, j: int|
        #![trigger s[i].key_of(), s[j].key_of()]
        0 <= i < s.len() && 0 <= j < s.len() && s[i].key_of() == s[j].key_of() ==> i == j
}

pub open spec fn has_key<T: Row>(s: Seq<T>, k: Seq<char>) -> bool {
    exists|i: int| 0 <= i < s.len() && #[trigger] s[i].key_of() == k
}

/// Where the row with key `k` stands (meaningful when there is one).
pub open spec fn index_of<T: Row>(s: Seq<T>, k: Seq<char>) -> int {
    choose|i: int| 0 <= i < s.len() && #[trigger] s[i].key_of() == k
}

/// The row with key `k`, if any.
pub open spec fn lookup<T: Row>(s: Seq<T>, k: Seq<char>) -> Option<T> {
    if has_key(s, k) {
        Some(s[index_of(s, k)])
    } else {
        None
    }
}

/// With unique keys, the row at `i` is the one found under its key.
pub proof fn lemma_lookup_at<T: Row>(s: Seq<T>, i: int)
    requires
        keys_unique(s),
        0 <= i < s.len(),
    ensures
        has_key(s, s[i].key_of()),
        index_of(s, s[i].key_of()) == i,
        lookup(s, s[i].key_of()) == Some(s[i]),
{
    let k = s[i].key_of();
    assert(has_key(s, k));
    let j = index_of(s, k);
    assert(s[j].key_of() == s[i].key_of());
}

/// Appending a row with a fresh key adds that key and changes no other.
pub proof fn lemma_lookup_push<T: Row>(s: Seq<T>, row: T, k: Seq<char>)
    requires
        keys_unique(s),
        !has_key(s, row.key_of()),
    ensures
        keys_unique(s.push(row)),
        lookup(s.push(row), k) == (if k == row.key_of() {
            Some(row)
        } else {
            lookup(s, k)
        }),
{
    let t = s.push(row);
    assert forall|i: int, j: int|
        #![trigger t[i].key_of(), t[j].key_of()]
        0 <= i < t.len() && 0 <= j < t.len() && t[i].key_of() == t[j].key_of() implies i == j by {
        if i < s.len() && j == s.len() {
            assert(s[i].key_of() == row.key_of());
        } else if j < s.len() && i == s.len() {
            assert(s[j].key_of() == row.key_of());
        } else if i < s.len() && j < s.len() {
            assert(s[i].key_of() == s[j].key_of());
        }
    }
    if k == row.key_of() {
        lemma_lookup_at(t, s.len() as int);
    } else if has_key(s, k) {
        let i = index_of(s, k);
        lemma_lookup_at(s, i);
        assert(t[i] == s[i]);
        lemma_lookup_at(t, i);
    } else {
        if has_key(t, k) {
            let i = index_of(t, k);
            assert(s[i].key_of() == k);
        }
    }
}

/// Replacing the row at `i` by one with the same key changes only that key.
pub proof fn lemma_lookup_update<T: Row>(s: Seq<T>, i: int, row: T, k: Seq<char>)
    requires
        keys_unique(s),
        0 <= i < s.len(),
        s[i].key_of() == row.key_of(),
    ensures
        keys_unique(s.update(i, row)),
        lookup(s.update(i, row), k) == (if k == row.key_of() {
            Some(row)
        } else {
            lookup(s, k)
        }),
{
    let t = s.update(i, row);
    assert forall|a: int, b: int|
        #![trigger t[a].key_of(), t[b].key_of()]
        0 <= a < t.len() && 0 <= b < t.len() && t[a].key_of() == t[b].key_of() implies a == b by {
        assert(t[a].key_of() == s[a].key_of());
        assert(t[b].key_of() == s[b].key_of());
    }
    if k == row.key_of() {
        lemma_lookup_at(t, i);
    } else if has_key(s, k) {
        let j = index_of(s, k);
        lemma_lookup_at(s, j);
        assert(t[j] == s[j]);
        lemma_lookup_at(t, j);
    } else {
        if has_key(t, k) {
            let j = index_of(t, k);
            assert(t[j].key_of() == s[j].key_of());
        }
    }
}

/// Removing the row at `i` removes its key and changes no other.
pub proof fn lemma_lookup_remove<T: Row>(s: Seq<T>, i: int, k: Seq<char>)
    requires
        keys_unique(s),
        0 <= i < s.len(),
    ensures
        keys_unique(s.remove(i)),
        lookup(s.remove(i), k) == (if k == s[i].key_of() {
            None
        } else {
            lookup(s, k)
        }),
{
    let t = s.remove(i);
    assert forall|a: int, b: int|
        #![trigger t[a].key_of(), t[b].key_of()]
        0 <= a < t.len() && 0 <= b < t.len() && t[a].key_of() == t[b].key_of() implies a == b by {
        let a2 = if a < i { a } else { a + 1 };
        let b2 = if b < i { b } else { b + 1 };
        assert(t[a] == s[a2]);
        assert(t[b] == s[b2]);
    }
    if has_key(t, k) {
        let j = index_of(t, k);
        let j2 = if j < i { j } else { j + 1 };
        assert(t[j] == s[j2]);
        lemma_lookup_at(s, j2);
        lemma_lookup_at(t, j);
    } else {
        if has_key(s, k) && k != s[i].key_of() {
            let j = index_of(s, k);
            let j2 = if j < i { j } else { j - 1 };
            assert(t[j2] == s[j]);
        }
    }
}

/// No two rows agree on the projection `f`.
pub open spec fn unique_by<T, K>(s: Seq<T>, f: spec_fn(T) -> K) -> bool {
    forall|i: int, j: int|
        #![trigger f(s[i]), f(s[j])]
        0 <= i < s.len() && 0 <= j < s.len() && f(s[i]) == f(s[j]) ==> i == j
}

/// Some row has projection `k` under `f`.
pub open spec fn taken_by<T, K>(s: Seq<T>, f: spec_fn(T) -> K, k: K) -> bool {
    exists|i: int| 0 <= i < s.len() && #[trigger] f(s[i]) == k
}

pub proof fn lemma_unique_push<T, K>(s: Seq<T>, f: spec_fn(T) -> K, x: T)
    requires
        unique_by(s, f),
        !taken_by(s, f, f(x)),
    ensures
        unique_by(s.push(x), f),
{
    let t = s.push(x);
    assert forall|i: int, j: int|
        #![trigger f(t[i]), f(t[j])]
        0 <= i < t.len() && 0 <= j < t.len() && f(t[i]) == f(t[j]) implies i == j by {
        if i < s.len() && j == s.len() {
            assert(f(s[i]) == f(x));
        } else if j < s.len() && i == s.len() {
            assert(f(s[j]) == f(x));
        } else if i < s.len() && j < s.len() {
            assert(f(s[i]) == f(s[j]));
        }
    }
}

pub proof fn lemma_unique_update<T, K>(s: Seq<T>, f: spec_fn(T) -> K, i: int, x: T)
    requires
        unique_by(s, f),
        0 <= i < s.len(),
        forall|j: int| 0 <= j < s.len() && j != i ==> #[trigger] f(s[j]) != f(x),
    ensures
        unique_by(s.update(i, x), f),
{
    let t = s.update(i, x);
    assert forall|a: int, b: int|
        #![trigger f(t[a]), f(t[b])]
        0 <= a < t.len() && 0 <= b < t.len() && f(t[a]) == f(t[b]) implies a == b by {
        if a != i && b != i {
            assert(f(s[a]) == f(s[b]));
        } else if a == i && b != i {
            assert(f(s[b]) == f(x));
        } else if b == i && a != i {
            assert(f(s[a]) == f(x));
        }
    }
}

pub proof fn lemma_unique_remove<T, K>(s: Seq<T>, f: spec_fn(T) -> K, i: int)
    requires
        unique_by(s, f),
        0 <= i < s.len(),
    ensures
        unique_by(s.remove(i), f),
        forall|k: K| #[trigger] taken_by(s.remove(i), f, k) <==> (taken_by(s, f, k) && k != f(s[i])),
{
    let t = s.remove(i);
    assert forall|a: int, b: int|
        #![trigger f(t[a]), f(t[b])]
        0 <= a < t.len() && 0 <= b < t.len() && f(t[a]) == f(t[b]) implies a == b by {
        let a2 = if a < i { a } else { a + 1 };
        let b2 = if b < i { b } else { b + 1 };
        assert(t[a] == s[a2]);
        assert(t[b] == s[b2]);
        assert(f(s[a2]) == f(s[b2]));
    }
    assert forall|k: K| #[trigger] taken_by(t, f, k) <==> (taken_by(s, f, k) && k != f(s[i])) by {
        if taken_by(t, f, k) {
            let a = choose|a: int| 0 <= a < t.len() && #[trigger] f(t[a]) == k;
            let a2 = if a < i { a } else { a + 1 };
            assert(t[a] == s[a2]);
            assert(f(s[a2]) == k);
        }
        if taken_by(s, f, k) && k != f(s[i]) {
            let a = choose|a: int| 0 <= a < s.len() && #[trigger] f(s[a]) == k;
            let a2 = if a < i { a } else { a - 1 };
            assert(t[a2] == s[a]);
            assert(f(t[a2]) == k);
        }
    }
}

/// Rows with unique keys, in insertion order.
#[derive(Debug)]
pub struct Table<T> {
    pub rows: Vec<T>,
}

impl<T: Row> Table<T> {
    pub open spec fn wf(&self) -> bool {
        keys_unique(self.rows@)
    }

    pub fn new() -> (r: Table<T>)
        ensures
            r.rows@ == Seq::<T>::empty(),
            r.wf(),
    {
        Table { rows: Vec::new() }
    }

    /// Where the row with the given key stands.
    pub fn position(&self, key: &String) -> (r: Option<usize>)
        ensures
            match r {
                Some(i) => i < self.rows@.len() && self.rows@[i as int].key_of() == key@,
                None => !has_key(self.rows@, key@),
            },
    {
        let n = self.rows.len();
        let mut i: usize = 0;
        while i < n
            invariant
                n == self.rows@.len(),
                i <= n,
                forall|j: int| 0 <= j < i ==> #[trigger] self.rows@[j].key_of() != key@,
            decreases n - i,
        {
            if *self.rows[i].key() == *key {
                return Some(i);
            }
            i += 1;
        }
        None
    }

    /// A copy of the row with the given key.
    pub fn get(&self, key: &String) -> (r: Option<T>)
        requires
            self.wf(),
        ensures
            r == lookup(self.rows@, key@),
    {
        match self.position(key) {
            Some(i) => {
                proof {
                    lemma_lookup_at(self.rows@, i as int);
                }
                Some(self.rows[i].copy_row())
            },
            None => None,
        }
    }

    /// Appends a row whose key is not yet taken; refuses it otherwise.
    pub fn insert(&mut self, row: T) -> (r: bool)
        requires
            old(self).wf(),
        ensures
            final(self).wf(),
            r == !has_key(old(self).rows@, row.key_of()),
            r ==> final(self).rows@ == old(self).rows@.push(row),
            !r ==> final(self).rows@ == old(self).rows@,
    {
        match self.position(row.key()) {
            Some(_) => false,
            None => {
                proof {
                    lemma_lookup_push(self.rows@, row, row.key_of());
                }
                self.rows.push(row);
                true
            },
        }
    }

    /// Replaces the row with the same key as `row`; does nothing if there is none.
    pub fn replace(&mut self, row: T) -> (r: bool)
        requires
            old(self).wf(),
        ensures
            final(self).wf(),
            r == has_key(old(self).rows@, row.key_of()),
            r ==> final(self).rows@ == old(self).rows@.update(
                index_of(old(self).rows@, row.key_of()),
                row,
            ),
            !r ==> final(self).rows@ == old(self).rows@,
    {
        match self.position(row.key()) {
            Some(i) => {
                proof {
                    lemma_lookup_at(self.rows@, i as int);
                    lemma_lookup_update(self.rows@, i as int, row, row.key_of());
                }
                self.rows.set(i, row);
                true
            },
            None => false,
        }
    }

    /// Removes the row with the given key; does nothing if there is none.
    pub fn remove(&mut self, key: &String) -> (r: bool)
        requires
            old(self).wf(),
        ensures
            final(self).wf(),
            r == has_key(old(self).rows@, key@),
            r ==> final(self).rows@ == old(self).rows@.remove(index_of(old(self).rows@, key@)),
            !r ==> final(self).rows@ == old(self).rows@,
    {
        match self.position(key) {
            Some(i) => {
                proof {
                    lemma_lookup_at(self.rows@, i as int);
                    lemma_lookup_remove(self.rows@, i as int, key@);
                }
                self.rows.remove(i);
                true
            },
            None => false,
        }
    }
}

} // verus!
