//! The default-name generator.
//!
//! Given an object kind and the table of names already in use, the generator
//! proposes a name that is guaranteed absent from the table. The counter is
//! seeded from the number of same-kind entries (a cheap single pass that gives
//! natural sequential names), then raised past any collision. The seed is a
//! heuristic: the generator does not search for the smallest free suffix, and
//! a gap left by a rename stays where it is.

use vstd::prelude::*;

use crate::decimal::{dec_digits, lemma_dec_digits_len, lemma_dec_digits_injective, push_decimal};
use crate::kind::ObjectKind;
use crate::registry::{display_name_seq, get_object_type_name};
use crate::table::{
    count_kind, key_set, lemma_count_kind_le_len, lemma_key_set, table_contains, NameTable,
};

verus! {

/// The candidate tried at counter value `c`: the bare display name when
/// `c == 1`, else the display name, a space, and `c` in decimal.
pub open spec fn candidate_seq(kind: ObjectKind, c: nat) -> Seq<char> {
    if c == 1 {
        display_name_seq(kind)
    } else {
        display_name_seq(kind) + seq![' '] + dec_digits(c)
    }
}

/// Distinct counter values always give distinct candidate names.
pub proof fn lemma_candidate_injective(kind: ObjectKind, c1: nat, c2: nat)
    requires
        candidate_seq(kind, c1) == candidate_seq(kind, c2),
    ensures
        c1 == c2,
{
    let base = display_name_seq(kind);
    if c1 == 1 && c2 != 1 {
        lemma_dec_digits_len(c2);
        assert(candidate_seq(kind, c2).len() >= base.len() + 2);
        assert(false);
    } else if c1 != 1 && c2 == 1 {
        lemma_dec_digits_len(c1);
        assert(candidate_seq(kind, c1).len() >= base.len() + 2);
        assert(false);
    } else if c1 != 1 && c2 != 1 {
        let s1 = candidate_seq(kind, c1);
        let s2 = candidate_seq(kind, c2);
        assert(dec_digits(c1) =~= s1.subrange(base.len() as int + 1, s1.len() as int));
        assert(dec_digits(c2) =~= s2.subrange(base.len() as int + 1, s2.len() as int));
        lemma_dec_digits_injective(c1, c2);
    }
}

/// The counter value the generator starts from: one more than the number of
/// same-kind entries already in the table.
pub open spec fn seeded_counter(s: Seq<(Seq<char>, ObjectKind)>, kind: ObjectKind) -> nat {
    count_kind(s, kind) + 1
}

/// `name` is what the generator returns for `kind` against table `s` when it
/// is the candidate at some counter `c`: `c` is at least the seeded counter,
/// `name` is absent from the table, and every candidate between the seed and
/// `c` collided.
pub open spec fn generated_at(
    kind: ObjectKind,
    s: Seq<(Seq<char>, ObjectKind)>,
    name: Seq<char>,
    c: nat,
) -> bool {
    &&& c >= seeded_counter(s, kind)
    &&& name == candidate_seq(kind, c)
    &&& !table_contains(s, name)
    &&& forall|j: nat|
        seeded_counter(s, kind) <= j < c ==> table_contains(s, candidate_seq(kind, j))
}

/// `name` is the one string the generator can return for `kind` against `s`.
pub open spec fn is_generated_name(
    kind: ObjectKind,
    s: Seq<(Seq<char>, ObjectKind)>,
    name: Seq<char>,
) -> bool {
    exists|c: nat| generated_at(kind, s, name, c)
}

/// Determinism: the table and the kind pin the generated name down — any two
/// names satisfying the generator's contract against the same inputs are
/// equal, so two calls with identical inputs yield identical output.
pub proof fn lemma_generated_name_unique(
    kind: ObjectKind,
    s: Seq<(Seq<char>, ObjectKind)>,
    n1: Seq<char>,
    n2: Seq<char>,
)
    requires
        is_generated_name(kind, s, n1),
        is_generated_name(kind, s, n2),
    ensures
        n1 == n2,
{
    let c1: nat = choose|c: nat| generated_at(kind, s, n1, c);
    let c2: nat = choose|c: nat| generated_at(kind, s, n2, c);
    if c1 < c2 {
        assert(table_contains(s, candidate_seq(kind, c1)));
        assert(false);
    } else if c2 < c1 {
        assert(table_contains(s, candidate_seq(kind, c2)));
        assert(false);
    }
}

/// Cross-kind independence: recording a name for an object of a different
/// kind never affects the seeded counter for `kind`; only a same-kind entry
/// raises it.
pub proof fn lemma_seeded_counter_cross_kind(
    s: Seq<(Seq<char>, ObjectKind)>,
    name: Seq<char>,
    added: ObjectKind,
    kind: ObjectKind,
)
    ensures
        added != kind ==> seeded_counter(s.push((name, added)), kind) == seeded_counter(s, kind),
        added == kind ==> seeded_counter(s.push((name, added)), kind) == seeded_counter(s, kind)
            + 1,
{
    crate::table::lemma_count_kind_push(s, name, added, kind);
}

/// Generate a default name for a new object of kind `object_type`, distinct
/// from every name in `existing_names`.
///
/// The returned string is never a key of the table, and it is exactly the
/// first collision-free candidate from the seeded counter on, so the result
/// is a pure function of the inputs.
pub fn generate_smart_default_name(object_type: ObjectKind, existing_names: &NameTable) -> (r:
    String)
    ensures
        !table_contains(existing_names@, r@),
        is_generated_name(object_type, existing_names@, r@),
{
    let ghost s = existing_names@;
    let base = get_object_type_name(object_type);
    let n: usize = existing_names.len();
    let same_type_count: usize = existing_names.count_of_kind(object_type);
    let ghost seed: nat = seeded_counter(s, object_type);
    proof {
        lemma_key_set(s);
        lemma_count_kind_le_len(s, object_type);
    }
    let mut counter: u128 = (same_type_count as u128) + 1;
    let ghost mut tried: Set<Seq<char>> = Set::empty();
    proof {
        broadcast use vstd::set::axiom_set_empty_len;

        assert(tried.len() == 0);
    }
    loop
        invariant
            s == existing_names@,
            n == s.len(),
            seed == seeded_counter(s, object_type),
            seed <= n + 1,
            base@ == display_name_seq(object_type),
            key_set(s).finite(),
            key_set(s).len() <= n,
            forall|name: Seq<char>| key_set(s).contains(name) <==> table_contains(s, name),
            tried.finite(),
            tried.subset_of(key_set(s)),
            tried.len() == counter as nat - seed,
            seed <= counter as nat,
            counter as nat <= seed + key_set(s).len(),
            forall|x: Seq<char>|
                tried.contains(x) ==> exists|j: nat|
                    seed <= j < counter as nat && x == candidate_seq(object_type, j),
            forall|j: nat|
                seed <= j < counter as nat ==> table_contains(s, candidate_seq(object_type, j)),
        decreases key_set(s).len() - tried.len(),
    {
        let mut candidate = String::from_str(base);
        if counter > 1 {
            candidate.append(" ");
            push_decimal(counter, &mut candidate);
            proof {
                reveal_strlit(" ");
                assert(" "@ =~= seq![' ']);
                assert(candidate@ =~= candidate_seq(object_type, counter as nat));
            }
        }
        proof {
            assert(candidate@ == candidate_seq(object_type, counter as nat));
        }
        if !existing_names.contains_key(&candidate) {
            proof {
                assert(generated_at(object_type, s, candidate@, counter as nat));
            }
            return candidate;
        }
        proof {
            let cand = candidate@;
            assert(key_set(s).contains(cand));
            if tried.contains(cand) {
                let j: nat = choose|j: nat|
                    seed <= j < counter as nat && cand == candidate_seq(object_type, j);
                lemma_candidate_injective(object_type, j, counter as nat);
                assert(false);
            }
            vstd::set::axiom_set_insert_len(tried, cand);
            tried = tried.insert(cand);
            vstd::set_lib::lemma_len_subset(tried, key_set(s));
            assert forall|x: Seq<char>| tried.contains(x) implies exists|j: nat|
                seed <= j < counter as nat + 1 && x == candidate_seq(object_type, j) by {
                if x == cand {
                    assert(seed <= counter as nat && (counter as nat) < counter as nat + 1 && x
                        == candidate_seq(object_type, counter as nat));
                } else {
                    let j: nat = choose|j: nat|
                        seed <= j < counter as nat && x == candidate_seq(object_type, j);
                    assert(seed <= j < counter as nat + 1 && x == candidate_seq(object_type, j));
                }
            }
            assert(table_contains(s, candidate_seq(object_type, counter as nat)));
        }
        counter = counter + 1;
    }
}

} // verus!
