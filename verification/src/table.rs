//! The table of names already assigned in one object pool.
//!
//! The table is a finite mapping from a name to the kind of the object that
//! carries it, modelled as a sequence of (name, kind) pairs with pairwise
//! distinct names. The caller owns it: the naming core only reads it.

use vstd::prelude::*;

use crate::kind::ObjectKind;

verus! {

/// True when `name` is a key of the table `s`.
pub open spec fn table_contains(s: Seq<(Seq<char>, ObjectKind)>, name: Seq<char>) -> bool {
    exists|i: int| 0 <= i < s.len() && s[i].0 == name
}

/// How many entries of the table `s` have kind `kind`.
pub open spec fn count_kind(s: Seq<(Seq<char>, ObjectKind)>, kind: ObjectKind) -> nat
    decreases s.len(),
{
    if s.len() == 0 {
        0
    } else {
        count_kind(s.drop_last(), kind) + if s.last().1 == kind {
            1nat
        } else {
            0nat
        }
    }
}

/// A kind's count never exceeds the table's size.
pub proof fn lemma_count_kind_le_len(s: Seq<(Seq<char>, ObjectKind)>, kind: ObjectKind)
    ensures
        count_kind(s, kind) <= s.len(),
    decreases s.len(),
{
    if s.len() > 0 {
        lemma_count_kind_le_len(s.drop_last(), kind);
    }
}

/// The set of names that are keys of the table `s`.
pub open spec fn key_set(s: Seq<(Seq<char>, ObjectKind)>) -> Set<Seq<char>>
    decreases s.len(),
{
    if s.len() == 0 {
        Set::empty()
    } else {
        key_set(s.drop_last()).insert(s.last().0)
    }
}

/// The key set is finite and no larger than the table, and holds exactly the
/// keys of the table.
pub proof fn lemma_key_set(s: Seq<(Seq<char>, ObjectKind)>)
    ensures
        key_set(s).finite(),
        key_set(s).len() <= s.len(),
        forall|name: Seq<char>| key_set(s).contains(name) <==> table_contains(s, name),
    decreases s.len(),
{
    if s.len() == 0 {
    } else {
        lemma_key_set(s.drop_last());
        assert forall|name: Seq<char>| key_set(s).contains(name) implies table_contains(
            s,
            name,
        ) by {
            if name == s.last().0 {
                assert(s[s.len() - 1].0 == name);
            } else {
                assert(key_set(s.drop_last()).contains(name));
                assert(table_contains(s.drop_last(), name));
                let i: int = choose|i: int| 0 <= i < s.drop_last().len() && s.drop_last()[i].0 == name;
                assert(s.drop_last()[i] == s[i]);
                assert(s[i].0 == name);
            }
        }
        assert forall|name: Seq<char>| table_contains(s, name) implies key_set(s).contains(
            name,
        ) by {
            let i: int = choose|i: int| 0 <= i < s.len() && s[i].0 == name;
            if i < s.len() - 1 {
                assert(s.drop_last()[i].0 == name);
                assert(table_contains(s.drop_last(), name));
                assert(key_set(s.drop_last()).contains(name));
            } else {
                assert(name == s.last().0);
            }
        }
    }
}

/// A table of (name, kind) pairs, as the pool editor holds it while naming
/// objects. Names are the keys: well-formed tables never repeat one.
pub struct NameTable {
    entries: Vec<(String, ObjectKind)>,
}

impl View for NameTable {
    type V = Seq<(Seq<char>, ObjectKind)>;

    closed spec fn view(&self) -> Seq<(Seq<char>, ObjectKind)> {
        self.entries@.map_values(|p: (String, ObjectKind)| (p.0@, p.1))
    }
}

impl NameTable {
    /// Well-formedness: no name appears twice.
    pub open spec fn wf(&self) -> bool {
        forall|i: int, j: int| 0 <= i < j < self@.len() ==> self@[i].0 != self@[j].0
    }

    /// An empty table.
    pub fn new() -> (r: NameTable)
        ensures
            r@ == Seq::<(Seq<char>, ObjectKind)>::empty(),
            r.wf(),
    {
        let r = NameTable { entries: Vec::new() };
        proof {
            assert(r@ =~= Seq::<(Seq<char>, ObjectKind)>::empty());
        }
        r
    }

    /// How many entries the table holds.
    pub fn len(&self) -> (r: usize)
        ensures
            r == self@.len(),
    {
        self.entries.len()
    }

    /// Whether `name` is already assigned to some object.
    pub fn contains_key(&self, name: &String) -> (r: bool)
        ensures
            r == table_contains(self@, name@),
    {
        let n: usize = self.entries.len();
        let mut i: usize = 0;
        while i < n
            invariant
                0 <= i <= n,
                n == self@.len(),
                self@ == self.entries@.map_values(|p: (String, ObjectKind)| (p.0@, p.1)),
                forall|j: int| 0 <= j < i ==> self@[j].0 != name@,
            decreases n - i,
        {
            if self.entries[i].0 == *name {
                proof {
                    assert(self@[i as int].0 == name@);
                }
                return true;
            }
            proof {
                assert(self@[i as int].0 != name@);
            }
            i = i + 1;
        }
        false
    }

    /// Record that `name` now belongs to an object of kind `kind`.
    ///
    /// The name must be fresh; that keeps the table well-formed, so a
    /// well-formed table can only ever gain distinct names.
    pub fn insert(&mut self, name: String, kind: ObjectKind)
        requires
            !table_contains(old(self)@, name@),
        ensures
            final(self)@ == old(self)@.push((name@, kind)),
            old(self).wf() ==> final(self).wf(),
    {
        let ghost pre = self@;
        self.entries.push((name, kind));
        proof {
            assert(self@ =~= pre.push((name@, kind)));
            if old(self).wf() {
                assert forall|i: int, j: int| 0 <= i < j < self@.len() implies self@[i].0
                    != self@[j].0 by {
                    if j == self@.len() - 1 {
                        assert(!table_contains(pre, self@[j].0));
                        assert(pre[i].0 != self@[j].0);
                    }
                }
            }
        }
    }

    /// How many entries of the table have kind `kind`.
    pub fn count_of_kind(&self, kind: ObjectKind) -> (r: usize)
        ensures
            r == count_kind(self@, kind),
    {
        let n: usize = self.entries.len();
        let mut i: usize = 0;
        let mut count: usize = 0;
        while i < n
            invariant
                0 <= i <= n,
                n == self@.len(),
                self@ == self.entries@.map_values(|p: (String, ObjectKind)| (p.0@, p.1)),
                count == count_kind(self@.take(i as int), kind),
                count <= i,
            decreases n - i,
        {
            proof {
                assert(self@.take(i + 1).drop_last() =~= self@.take(i as int));
                assert(self@.take(i + 1).last() == self@[i as int]);
            }
            if self.entries[i].1 == kind {
                count = count + 1;
            }
            i = i + 1;
        }
        proof {
            assert(self@.take(n as int) =~= self@);
        }
        count
    }
}

/// Counting is indifferent to entries of other kinds: recording a name for an
/// object of some other kind leaves the count for `kind` unchanged, while
/// recording one of the same kind raises it by one.
pub proof fn lemma_count_kind_push(
    s: Seq<(Seq<char>, ObjectKind)>,
    name: Seq<char>,
    added: ObjectKind,
    kind: ObjectKind,
)
    ensures
        added != kind ==> count_kind(s.push((name, added)), kind) == count_kind(s, kind),
        added == kind ==> count_kind(s.push((name, added)), kind) == count_kind(s, kind) + 1,
{
    assert(s.push((name, added)).drop_last() =~= s);
    assert(s.push((name, added)).last() == (name, added));
}

} // verus!
