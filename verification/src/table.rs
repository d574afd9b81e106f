use vstd::prelude::*;
use vstd::pervasive::VecAdditionalExecFns;

verus! {

/// An entry that can live in a `RegistryTable`: it exposes the identity key
/// that upserts and lookups go by, at the specification level on the entry's
/// view and executably as string comparisons.
pub trait RegistryEntry: View + Sized {
    /// The identity key of an entry's view.
    spec fn key_of(v: Self::V) -> Seq<char>;

    /// Whether this entry and `other` carry the same identity key.
    fn key_matches(&self, other: &Self) -> (b: bool)
        ensures
            b == (Self::key_of(self@) == Self::key_of(other@)),
    ;

    /// Whether this entry's identity key is `k`.
    fn key_is(&self, k: &String) -> (b: bool)
        ensures
            b == (Self::key_of(self@) == k@),
    ;
}

/// What a lookup by key finds in a sequence of entry views: the first entry
/// whose key matches, scanning front to back.
pub open spec fn seq_get<T: RegistryEntry>(s: Seq<T::V>, k: Seq<char>) -> Option<T::V>
    decreases s.len(),
{
    if s.len() == 0 {
        None
    } else if T::key_of(s[0]) == k {
        Some(s[0])
    } else {
        seq_get::<T>(s.skip(1), k)
    }
}

/// The views of a sequence of entries.
pub open spec fn views_of<T: RegistryEntry>(s: Seq<T>) -> Seq<T::V> {
    s.map_values(|e: T| e@)
}

/// Lookups skip a prefix none of whose entries carries the key.
proof fn lemma_seq_get_skip<T: RegistryEntry>(s: Seq<T::V>, k: Seq<char>, i: int)
    requires
        0 <= i <= s.len(),
        forall|j: int| 0 <= j < i ==> T::key_of(#[trigger] s[j]) != k,
    ensures
        seq_get::<T>(s, k) == seq_get::<T>(s.skip(i), k),
    decreases i,
{
    if i > 0 {
        assert(s.skip(1).skip(i - 1) =~= s.skip(i));
        lemma_seq_get_skip::<T>(s.skip(1), k, i - 1);
    } else {
        assert(s.skip(0) =~= s);
    }
}

/// Replacing the first entry that carries a key with another entry of the
/// same key changes exactly the lookup of that key.
proof fn lemma_seq_get_update<T: RegistryEntry>(s: Seq<T::V>, i: int, v: T::V, q: Seq<char>)
    requires
        0 <= i < s.len(),
        T::key_of(s[i]) == T::key_of(v),
        forall|j: int| 0 <= j < i ==> T::key_of(#[trigger] s[j]) != T::key_of(v),
    ensures
        seq_get::<T>(s.update(i, v), q) == if q == T::key_of(v) {
            Some(v)
        } else {
            seq_get::<T>(s, q)
        },
    decreases i,
{
    if i == 0 {
        assert(s.update(0, v)[0] == v);
        assert(s.update(0, v).skip(1) =~= s.skip(1));
    } else {
        assert(s.update(i, v)[0] == s[0]);
        assert(s.update(i, v).skip(1) =~= s.skip(1).update(i - 1, v));
        assert(forall|j: int|
            0 <= j < i - 1 ==> T::key_of(#[trigger] s.skip(1)[j]) != T::key_of(v)) by {
            assert(forall|j: int| 0 <= j < i - 1 ==> s.skip(1)[j] == s[j + 1]);
        }
        lemma_seq_get_update::<T>(s.skip(1), i - 1, v, q);
    }
}

/// Appending an entry whose key occurs nowhere in the sequence changes
/// exactly the lookup of that key.
proof fn lemma_seq_get_push<T: RegistryEntry>(s: Seq<T::V>, v: T::V, q: Seq<char>)
    requires
        forall|j: int| 0 <= j < s.len() ==> T::key_of(#[trigger] s[j]) != T::key_of(v),
    ensures
        seq_get::<T>(s.push(v), q) == if q == T::key_of(v) {
            Some(v)
        } else {
            seq_get::<T>(s, q)
        },
    decreases s.len(),
{
    let p = s.push(v);
    if s.len() == 0 {
        assert(p[0] == v);
        if q == T::key_of(v) {
            assert(seq_get::<T>(p, q) == Some(v));
        } else {
            assert(p.skip(1) =~= Seq::<T::V>::empty());
            assert(seq_get::<T>(p, q) is None);
            assert(seq_get::<T>(s, q) is None);
        }
    } else {
        assert(p[0] == s[0]);
        assert(T::key_of(s[0]) != T::key_of(v));
        assert(p.skip(1) =~= s.skip(1).push(v));
        assert forall|j: int|
            0 <= j < s.skip(1).len() implies T::key_of(#[trigger] s.skip(1)[j]) != T::key_of(
            v,
        ) by {
            assert(s.skip(1)[j] == s[j + 1]);
        }
        lemma_seq_get_push::<T>(s.skip(1), v, q);
        if T::key_of(s[0]) == q {
            assert(seq_get::<T>(p, q) == Some(s[0]));
            assert(seq_get::<T>(s, q) == Some(s[0]));
        } else {
            assert(seq_get::<T>(p, q) == seq_get::<T>(p.skip(1), q));
            assert(seq_get::<T>(s, q) == seq_get::<T>(s.skip(1), q));
        }
    }
}

/// A registry namespace: a set of entries addressed by identity key, with
/// idempotent upsert-by-key writes. Re-registering a key overwrites the
/// earlier entry; it never duplicates it.
#[derive(Debug)]
pub struct RegistryTable<T> {
    entries: Vec<T>,
}

impl<T: RegistryEntry> RegistryTable<T> {
    /// The views of the entries held, in storage order.
    pub closed spec fn views(&self) -> Seq<T::V> {
        views_of(self.entries@)
    }

    /// Each identity key occurs at most once.
    pub open spec fn wf(&self) -> bool {
        forall|a: int, b: int|
            0 <= a < b < self.views().len() ==> T::key_of(#[trigger] self.views()[a])
                != T::key_of(#[trigger] self.views()[b])
    }

    /// What a lookup by key finds.
    pub open spec fn spec_get(&self, k: Seq<char>) -> Option<T::V> {
        seq_get::<T>(self.views(), k)
    }

    /// An empty table.
    pub fn new() -> (r: Self)
        ensures
            r.wf(),
            r.views() == Seq::<T::V>::empty(),
            forall|k: Seq<char>| r.spec_get(k) is None,
    {
        let entries: Vec<T> = Vec::new();
        proof {
            assert(views_of(entries@) =~= Seq::<T::V>::empty());
        }
        RegistryTable { entries }
    }

    /// How many entries the table holds.
    pub fn len(&self) -> (n: usize)
        ensures
            n == self.views().len(),
    {
        self.entries.len()
    }

    /// The entry stored at a position.
    pub fn entry_at(&self, i: usize) -> (r: &T)
        requires
            i < self.views().len(),
        ensures
            r@ == self.views()[i as int],
    {
        proof {
            assert(self.views()[i as int] == self.entries@[i as int]@);
        }
        &self.entries[i]
    }

    /// Inserts an entry, overwriting any earlier entry with the same key:
    /// afterwards the key resolves to exactly this entry, every other key
    /// resolves as before, and the table grows only if the key was absent.
    pub fn upsert(&mut self, e: T)
        requires
            old(self).wf(),
        ensures
            final(self).wf(),
            final(self).spec_get(T::key_of(e@)) == Some(e@),
            forall|k: Seq<char>|
                k != T::key_of(e@) ==> final(self).spec_get(k) == old(self).spec_get(k),
            final(self).views().len() == old(self).views().len() + if old(self).spec_get(
                T::key_of(e@),
            ) is Some {
                0int
            } else {
                1int
            },
    {
        let ghost orig = old(self).views();
        let n = self.entries.len();
        let mut i: usize = 0;
        let mut found: bool = false;
        while !found && i < n
            invariant
                *self == *old(self),
                orig == self.views(),
                n == self.entries.len(),
                i <= n,
                forall|j: int| 0 <= j < i ==> T::key_of(#[trigger] orig[j]) != T::key_of(e@),
                found ==> i < n && T::key_of(orig[i as int]) == T::key_of(e@),
            decreases n - i, (if found { 0int } else { 1int }),
        {
            proof {
                assert(orig == self.views());
                assert(orig[i as int] == self.entries@[i as int]@);
            }
            if self.entries[i].key_matches(&e) {
                found = true;
            } else {
                i = i + 1;
            }
        }
        if found {
            proof {
                assert(orig.len() == n);
                lemma_seq_get_skip::<T>(orig, T::key_of(e@), i as int);
                assert(orig.skip(i as int)[0] == orig[i as int]);
                assert(old(self).spec_get(T::key_of(e@)) == Some(orig[i as int]));
            }
            self.entries.set(i, e);
            proof {
                assert(self.views() =~= orig.update(i as int, e@));
                lemma_seq_get_update::<T>(orig, i as int, e@, T::key_of(e@));
                assert forall|k: Seq<char>| k != T::key_of(e@) implies self.spec_get(k)
                    == seq_get::<T>(orig, k) by {
                    lemma_seq_get_update::<T>(orig, i as int, e@, k);
                }
                assert forall|a: int, b: int|
                    0 <= a < b < self.views().len() implies T::key_of(self.views()[a]) != T::key_of(
                    self.views()[b],
                ) by {
                    assert(self.views()[a] == if a == i { e@ } else { orig[a] });
                    assert(self.views()[b] == if b == i { e@ } else { orig[b] });
                    assert(T::key_of(orig[a]) != T::key_of(orig[b]));
                }
            }
        } else {
            proof {
                assert(orig.len() == n);
                lemma_seq_get_skip::<T>(orig, T::key_of(e@), n as int);
                assert(orig.skip(n as int) =~= Seq::<T::V>::empty());
                assert(old(self).spec_get(T::key_of(e@)) is None);
            }
            self.entries.push(e);
            proof {
                assert(self.views() =~= orig.push(e@));
                lemma_seq_get_push::<T>(orig, e@, T::key_of(e@));
                assert forall|k: Seq<char>| k != T::key_of(e@) implies self.spec_get(k)
                    == seq_get::<T>(orig, k) by {
                    lemma_seq_get_push::<T>(orig, e@, k);
                }
                assert forall|a: int, b: int|
                    0 <= a < b < self.views().len() implies T::key_of(self.views()[a]) != T::key_of(
                    self.views()[b],
                ) by {
                    assert(self.views()[a] == if a == n { e@ } else { orig[a] });
                    assert(self.views()[b] == if b == n { e@ } else { orig[b] });
                    if b < n {
                        assert(T::key_of(orig[a]) != T::key_of(orig[b]));
                    }
                }
            }
        }
    }

    /// Looks an entry up by key; returns the entry the key resolves to, or
    /// nothing when the key is absent.
    pub fn get(&self, key: &String) -> (r: Option<&T>)
        ensures
            match r {
                Some(e) => self.spec_get(key@) == Some(e@),
                None => self.spec_get(key@) is None,
            },
    {
        let mut i: usize = 0;
        while i < self.entries.len()
            invariant
                0 <= i <= self.entries.len(),
                forall|j: int| 0 <= j < i ==> T::key_of(#[trigger] self.views()[j]) != key@,
            decreases self.entries.len() - i,
        {
            if self.entries[i].key_is(key) {
                proof {
                    lemma_seq_get_skip::<T>(self.views(), key@, i as int);
                    assert(self.views().skip(i as int)[0] == self.views()[i as int]);
                }
                return Some(&self.entries[i]);
            }
            i = i + 1;
        }
        proof {
            lemma_seq_get_skip::<T>(self.views(), key@, self.views().len() as int);
            assert(self.views().skip(self.views().len() as int) =~= Seq::<T::V>::empty());
        }
        None
    }
}

} // verus!
