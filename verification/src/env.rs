//! Environment variables of a task: names bound to values, each name once.

use crate::text::str_eq;
use vstd::prelude::*;

verus! {

/// A list of name-value pairs, by their character sequences.
pub type Pairs = Seq<(Seq<char>, Seq<char>)>;

/// The character sequences of a list of string pairs.
pub open spec fn pair_views(v: Seq<(String, String)>) -> Pairs {
    v.map_values(|p: (String, String)| (p.0@, p.1@))
}

/// Whether no name occurs twice.
pub open spec fn keys_unique(e: Pairs) -> bool {
    forall|i: int, j: int| 0 <= i < j < e.len() ==> e[i].0 != e[j].0
}

/// The position of the pair named `k`, or the length of `e` when there is none.
pub open spec fn find_key(e: Pairs, k: Seq<char>) -> nat
    decreases e.len(),
{
    if e.len() == 0 {
        0
    } else if e[0].0 == k {
        0
    } else {
        1 + find_key(e.drop_first(), k)
    }
}

/// The value bound to `k`, if any.
pub open spec fn lookup(e: Pairs, k: Seq<char>) -> Option<Seq<char>> {
    let i = find_key(e, k);
    if i < e.len() {
        Some(e[i as int].1)
    } else {
        None
    }
}

/// `e` without the pair named `k`.
pub open spec fn remove_key(e: Pairs, k: Seq<char>) -> Pairs {
    let i = find_key(e, k);
    if i < e.len() {
        e.remove(i as int)
    } else {
        e
    }
}

/// `e` with `k` bound to `v`: an existing binding is replaced in place, a
/// new one is appended.
pub open spec fn insert_key(e: Pairs, k: Seq<char>, v: Seq<char>) -> Pairs {
    let i = find_key(e, k);
    if i < e.len() {
        e.update(i as int, (k, v))
    } else {
        e.push((k, v))
    }
}

/// `find_key` gives the first pair named `k`.
pub proof fn lemma_find_key(e: Pairs, k: Seq<char>)
    ensures
        find_key(e, k) <= e.len(),
        find_key(e, k) < e.len() ==> e[find_key(e, k) as int].0 == k,
        forall|j: int| 0 <= j < find_key(e, k) ==> e[j].0 != k,
        find_key(e, k) == e.len() <==> (forall|j: int| 0 <= j < e.len() ==> e[j].0 != k),
    decreases e.len(),
{
    if e.len() > 0 && e[0].0 != k {
        let t = e.drop_first();
        lemma_find_key(t, k);
        assert forall|j: int| 0 <= j < find_key(e, k) implies e[j].0 != k by {
            if j > 0 {
                assert(e[j] == t[j - 1]);
            }
        }
        if find_key(e, k) == e.len() {
            assert forall|j: int| 0 <= j < e.len() implies e[j].0 != k by {
                if j > 0 {
                    assert(e[j] == t[j - 1]);
                }
            }
        }
        if forall|j: int| 0 <= j < e.len() ==> e[j].0 != k {
            assert forall|j: int| 0 <= j < t.len() implies t[j].0 != k by {
                assert(t[j] == e[j + 1]);
            }
        }
    }
}

/// In a list without repeated names, the pair named `k` sits at `i`
/// whenever `e[i]` is named `k`.
pub proof fn lemma_find_key_unique(e: Pairs, k: Seq<char>, i: int)
    requires
        keys_unique(e),
        0 <= i < e.len(),
        e[i].0 == k,
    ensures
        find_key(e, k) == i,
{
    lemma_find_key(e, k);
}

/// The bindings after removing `k`: `k` is unbound, every other name keeps
/// its value, and no name is repeated.
pub proof fn lemma_remove_key(e: Pairs, k: Seq<char>, k2: Seq<char>)
    requires
        keys_unique(e),
    ensures
        keys_unique(remove_key(e, k)),
        lookup(remove_key(e, k), k) is None,
        k2 != k ==> lookup(remove_key(e, k), k2) == lookup(e, k2),
{
    lemma_find_key(e, k);
    lemma_find_key(e, k2);
    let r = remove_key(e, k);
    let i = find_key(e, k) as int;
    lemma_find_key(r, k);
    lemma_find_key(r, k2);
    if i < e.len() {
        assert forall|a: int, b: int| 0 <= a < b < r.len() implies r[a].0 != r[b].0 by {
            let ea = if a < i { a } else { a + 1 };
            let eb = if b < i { b } else { b + 1 };
            assert(r[a] == e[ea]);
            assert(r[b] == e[eb]);
        }
        assert forall|j: int| 0 <= j < r.len() implies r[j].0 != k by {
            let ej = if j < i { j } else { j + 1 };
            assert(r[j] == e[ej]);
        }
        if k2 != k {
            let i2 = find_key(e, k2) as int;
            if i2 < e.len() {
                let ri = if i2 < i { i2 } else { i2 - 1 };
                assert(r[ri] == e[i2]);
                lemma_find_key_unique(r, k2, ri);
            } else {
                assert forall|j: int| 0 <= j < r.len() implies r[j].0 != k2 by {
                    let ej = if j < i { j } else { j + 1 };
                    assert(r[j] == e[ej]);
                }
            }
        }
    }
}

/// The bindings after binding `k` to `v`: `k` has value `v`, every other
/// name keeps its value, and no name is repeated.
pub proof fn lemma_insert_key(e: Pairs, k: Seq<char>, v: Seq<char>, k2: Seq<char>)
    requires
        keys_unique(e),
    ensures
        keys_unique(insert_key(e, k, v)),
        lookup(insert_key(e, k, v), k) == Some(v),
        k2 != k ==> lookup(insert_key(e, k, v), k2) == lookup(e, k2),
{
    lemma_find_key(e, k);
    lemma_find_key(e, k2);
    let r = insert_key(e, k, v);
    let i = find_key(e, k) as int;
    lemma_find_key(r, k2);
    if i < e.len() {
        assert forall|a: int, b: int| 0 <= a < b < r.len() implies r[a].0 != r[b].0 by {
            assert(r[a].0 == e[a].0);
            assert(r[b].0 == e[b].0);
        }
        lemma_find_key_unique(r, k, i);
        if k2 != k {
            let i2 = find_key(e, k2) as int;
            if i2 < e.len() {
                lemma_find_key_unique(r, k2, i2);
            } else {
                assert forall|j: int| 0 <= j < r.len() implies r[j].0 != k2 by {
                    assert(r[j].0 == e[j].0 || j == i);
                }
            }
        }
    } else {
        assert forall|a: int, b: int| 0 <= a < b < r.len() implies r[a].0 != r[b].0 by {
            if b == e.len() {
                assert(r[a] == e[a]);
            } else {
                assert(r[a] == e[a]);
                assert(r[b] == e[b]);
            }
        }
        lemma_find_key_unique(r, k, e.len() as int);
        if k2 != k {
            let i2 = find_key(e, k2) as int;
            if i2 < e.len() {
                assert(r[i2] == e[i2]);
                lemma_find_key_unique(r, k2, i2);
            } else {
                assert forall|j: int| 0 <= j < r.len() implies r[j].0 != k2 by {
                    if j < e.len() {
                        assert(r[j] == e[j]);
                    }
                }
            }
        }
    }
}

/// The environment variables of a task, in the order they were added.
pub struct EnvVars {
    entries: Vec<(String, String)>,
}

impl EnvVars {
    /// The bindings, as name-value character sequences, in order.
    pub closed spec fn pairs(&self) -> Pairs {
        pair_views(self.entries@)
    }

    #[verifier::type_invariant]
    spec fn inv(&self) -> bool {
        keys_unique(self.pairs())
    }

    /// No variables.
    pub fn new() -> (r: EnvVars)
        ensures
            r.pairs() == Seq::<(Seq<char>, Seq<char>)>::empty(),
            keys_unique(r.pairs()),
    {
        let r = EnvVars { entries: Vec::new() };
        assert(r.pairs() =~= Seq::<(Seq<char>, Seq<char>)>::empty());
        r
    }

    /// The number of variables.
    pub fn len(&self) -> (r: usize)
        ensures
            r == self.pairs().len(),
            keys_unique(self.pairs()),
    {
        proof {
            use_type_invariant(self);
        }
        self.entries.len()
    }

    /// Whether there is no variable.
    pub fn is_empty(&self) -> (r: bool)
        ensures
            r == (self.pairs().len() == 0),
    {
        self.entries.len() == 0
    }

    /// The name and value of the `i`-th variable.
    pub fn entry(&self, i: usize) -> (r: (&String, &String))
        requires
            i < self.pairs().len(),
        ensures
            (r.0@, r.1@) == self.pairs()[i as int],
    {
        let p = &self.entries[i];
        (&p.0, &p.1)
    }

    fn position(&self, k: &str) -> (r: usize)
        ensures
            r == find_key(self.pairs(), k@),
    {
        let mut i: usize = 0;
        let ghost e = self.pairs();
        assert(e.skip(0) =~= e);
        while i < self.entries.len()
            invariant
                i <= self.entries.len(),
                e == self.pairs(),
                e.len() == self.entries.len(),
                find_key(e, k@) == i + find_key(e.skip(i as int), k@),
            decreases self.entries.len() - i,
        {
            assert(e[i as int].0 == self.entries[i as int].0@);
            if str_eq(self.entries[i].0.as_str(), k) {
                return i;
            }
            assert(e.skip(i as int).drop_first() =~= e.skip(i + 1));
            i = i + 1;
        }
        i
    }

    /// The value bound to `k`, if any.
    pub fn get(&self, k: &str) -> (r: Option<&String>)
        ensures
            match r {
                Some(v) => lookup(self.pairs(), k@) == Some(v@),
                None => lookup(self.pairs(), k@) is None,
            },
            keys_unique(self.pairs()),
    {
        proof {
            use_type_invariant(self);
        }
        let i = self.position(k);
        if i < self.entries.len() {
            Some(&self.entries[i].1)
        } else {
            None
        }
    }

    /// Unbinds `k`, as `HashMap::remove` does.
    pub fn remove(&mut self, k: &str)
        ensures
            final(self).pairs() == remove_key(old(self).pairs(), k@),
            keys_unique(final(self).pairs()),
            lookup(final(self).pairs(), k@) is None,
            forall|k2: Seq<char>| k2 != k@ ==> #[trigger] lookup(final(self).pairs(), k2) == lookup(old(self).pairs(), k2),
    {
        proof {
            use_type_invariant(&*self);
            lemma_remove_key(self.pairs(), k@, k@);
            assert forall|k2: Seq<char>| k2 != k@ implies #[trigger] lookup(remove_key(self.pairs(), k@), k2) == lookup(self.pairs(), k2) by {
                lemma_remove_key(self.pairs(), k@, k2);
            }
        }
        let i = self.position(k);
        if i < self.entries.len() {
            let mut taken = EnvVars::new();
            std::mem::swap(&mut taken, self);
            let EnvVars { mut entries } = taken;
            entries.remove(i);
            assert(pair_views(entries@) =~= remove_key(old(self).pairs(), k@));
            *self = EnvVars { entries };
        }
    }

    /// Binds `k` to `v`, as `HashMap::insert` does.
    pub fn insert(&mut self, k: String, v: String)
        ensures
            final(self).pairs() == insert_key(old(self).pairs(), k@, v@),
            keys_unique(final(self).pairs()),
            lookup(final(self).pairs(), k@) == Some(v@),
            forall|k2: Seq<char>| k2 != k@ ==> #[trigger] lookup(final(self).pairs(), k2) == lookup(old(self).pairs(), k2),
    {
        proof {
            use_type_invariant(&*self);
            lemma_insert_key(self.pairs(), k@, v@, k@);
            assert forall|k2: Seq<char>| k2 != k@ implies #[trigger] lookup(insert_key(self.pairs(), k@, v@), k2) == lookup(self.pairs(), k2) by {
                lemma_insert_key(self.pairs(), k@, v@, k2);
            }
        }
        let i = self.position(k.as_str());
        let mut taken = EnvVars::new();
        std::mem::swap(&mut taken, self);
        let EnvVars { mut entries } = taken;
        if i < entries.len() {
            entries.set(i, (k, v));
        } else {
            entries.push((k, v));
        }
        assert(pair_views(entries@) =~= insert_key(old(self).pairs(), k@, v@));
        *self = EnvVars { entries };
    }

    /// A copy with the same bindings in the same order.
    pub fn duplicate(&self) -> (r: EnvVars)
        ensures
            r.pairs() == self.pairs(),
            keys_unique(r.pairs()),
    {
        proof {
            use_type_invariant(self);
        }
        let mut out: Vec<(String, String)> = Vec::new();
        let mut i: usize = 0;
        while i < self.entries.len()
            invariant
                i <= self.entries.len(),
                pair_views(out@) =~= self.pairs().take(i as int),
            decreases self.entries.len() - i,
        {
            let p = &self.entries[i];
            let a = p.0.clone();
            let b = p.1.clone();
            let ghost before = out@;
            out.push((a, b));
            assert(self.pairs()[i as int] == (a@, b@));
            assert(pair_views(out@) =~= pair_views(before).push((a@, b@)));
            assert(self.pairs().take(i + 1) =~= self.pairs().take(i as int).push((a@, b@)));
            i = i + 1;
        }
        assert(self.pairs().take(self.entries.len() as int) =~= self.pairs());
        EnvVars { entries: out }
    }
}

} // verus!
