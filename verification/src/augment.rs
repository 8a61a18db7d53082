//! Event-join augmentation of field selections.
//!
//! The event APIs join logs to their transactions and blocks after
//! decoding.  For the join to be possible, the key columns must be part
//! of every non-empty selection, so they are inserted (as a set union)
//! before the query is sent.  An empty selection means "omit this kind
//! entirely" and is left empty.

use vstd::prelude::*;
use crate::net_types::{names_of, Query};

verus! {

/// Join columns inserted into a non-empty block selection.
pub open spec fn block_join_names() -> Set<Seq<char>> {
    set!["number"@]
}

/// Join columns inserted into a non-empty transaction selection.
pub open spec fn tx_join_names() -> Set<Seq<char>> {
    set!["block_number"@, "transaction_index"@]
}

/// Join columns inserted into a non-empty log selection.
pub open spec fn log_join_names() -> Set<Seq<char>> {
    set!["log_index"@, "transaction_index"@, "block_number"@]
}

/// What a selection becomes under event-join augmentation: an empty
/// selection stays empty, any other receives the join columns by union.
pub open spec fn augmented(s: Set<Seq<char>>, joins: Set<Seq<char>>) -> Set<Seq<char>> {
    if s.is_empty() {
        s
    } else {
        s.union(joins)
    }
}

/// A name is among a selection's exactly when some list entry spells it.
pub proof fn lemma_names_of_contains(v: Seq<String>, x: Seq<char>)
    ensures
        names_of(v).contains(x) <==> (exists|j: int| 0 <= j < v.len() && v[j]@ == x),
{
    broadcast use vstd::set::group_set_axioms;

    let m = v.map_values(|s: String| s@);
    if exists|j: int| 0 <= j < v.len() && v[j]@ == x {
        let j = choose|j: int| 0 <= j < v.len() && v[j]@ == x;
        assert(m[j] == x);
        assert(m.contains(x));
    }
    if names_of(v).contains(x) {
        assert(m.contains(x));
        let j = choose|j: int| 0 <= j < m.len() && m[j] == x;
        assert(v[j]@ == x);
    }
}

/// A selection list holds no names exactly when it holds no entries.
pub proof fn lemma_names_of_empty(v: Seq<String>)
    ensures
        (v.len() == 0) <==> names_of(v).is_empty(),
{
    broadcast use vstd::set::group_set_axioms;

    if v.len() == 0 {
        assert forall|x: Seq<char>| !names_of(v).contains(x) by {
            lemma_names_of_contains(v, x);
        }
        assert(names_of(v) =~= Set::<Seq<char>>::empty());
    } else {
        lemma_names_of_contains(v, v[0]@);
        assert(names_of(v).contains(v[0]@));
    }
}

/// Appending one entry inserts its name into the selection's set.
pub proof fn lemma_names_of_push(v: Seq<String>, s: String)
    ensures
        names_of(v.push(s)) =~= names_of(v).insert(s@),
{
    broadcast use vstd::set::group_set_axioms;

    assert forall|x: Seq<char>|
        names_of(v.push(s)).contains(x) <==> names_of(v).insert(s@).contains(x) by {
        lemma_names_of_contains(v.push(s), x);
        lemma_names_of_contains(v, x);
        if names_of(v.push(s)).contains(x) {
            let j = choose|j: int| 0 <= j < v.push(s).len() && v.push(s)[j]@ == x;
            if j < v.len() {
                assert(v[j]@ == x);
            } else {
                assert(x == s@);
            }
        }
        if names_of(v).insert(s@).contains(x) {
            if x == s@ {
                assert(v.push(s)[v.len() as int]@ == x);
            } else {
                let j = choose|j: int| 0 <= j < v.len() && v[j]@ == x;
                assert(v.push(s)[j]@ == x);
            }
        }
    }
    assert(names_of(v.push(s)) =~= names_of(v).insert(s@));
}

/// Whether some entry of the list spells `name`.
fn contains_name(v: &Vec<String>, name: &String) -> (r: bool)
    ensures
        r == names_of(v@).contains(name@),
{
    proof {
        lemma_names_of_contains(v@, name@);
    }
    let mut i: usize = 0;
    while i < v.len()
        invariant
            i <= v@.len(),
            forall|j: int| 0 <= j < i ==> v@[j]@ != name@,
        decreases v@.len() - i,
    {
        if v[i].eq(name) {
            proof {
                lemma_names_of_contains(v@, name@);
            }
            return true;
        }
        i += 1;
    }
    false
}

/// Appends `name` unless an entry already spells it, so the selection's
/// set of names gains exactly that name.
fn insert_if_missing(v: &mut Vec<String>, name: &String)
    ensures
        names_of(final(v)@) =~= names_of(old(v)@).insert(name@),
        final(v)@.len() >= old(v)@.len(),
        final(v)@.len() >= 1,
{
    broadcast use vstd::set::group_set_axioms;

    let present = contains_name(v, name);
    if !present {
        let ghost pre = v@;
        v.push(name.clone());
        proof {
            lemma_names_of_push(pre, *name);
        }
    } else {
        proof {
            assert(names_of(v@).insert(name@) =~= names_of(v@));
            lemma_names_of_contains(v@, name@);
            let j = choose|j: int| 0 <= j < v@.len() && v@[j]@ == name@;
            assert(v@.len() >= 1);
        }
    }
}

/// Inserts the join key columns into every non-empty field selection of
/// the query, leaving empty selections empty and the rest of the query
/// untouched.
pub fn add_event_join_fields_to_selection(query: &mut Query)
    ensures
        names_of(final(query).field_selection.block@) =~= augmented(
            names_of(old(query).field_selection.block@),
            block_join_names(),
        ),
        names_of(final(query).field_selection.transaction@) =~= augmented(
            names_of(old(query).field_selection.transaction@),
            tx_join_names(),
        ),
        names_of(final(query).field_selection.log@) =~= augmented(
            names_of(old(query).field_selection.log@),
            log_join_names(),
        ),
        final(query).from_block == old(query).from_block,
        final(query).to_block == old(query).to_block,
{
    broadcast use vstd::set::group_set_axioms;

    if !query.field_selection.block.is_empty() {
        let ghost pre = query.field_selection.block@;
        let n0 = "number".to_owned();
        insert_if_missing(&mut query.field_selection.block, &n0);
        proof {
            lemma_names_of_empty(pre);
            assert(names_of(query.field_selection.block@) =~= augmented(
                names_of(pre),
                block_join_names(),
            ));
        }
    } else {
        proof {
            lemma_names_of_empty(query.field_selection.block@);
        }
    }

    if !query.field_selection.transaction.is_empty() {
        let ghost pre = query.field_selection.transaction@;
        let n0 = "block_number".to_owned();
        insert_if_missing(&mut query.field_selection.transaction, &n0);
        let n1 = "transaction_index".to_owned();
        insert_if_missing(&mut query.field_selection.transaction, &n1);
        proof {
            lemma_names_of_empty(pre);
            assert(names_of(query.field_selection.transaction@) =~= augmented(
                names_of(pre),
                tx_join_names(),
            ));
        }
    } else {
        proof {
            lemma_names_of_empty(query.field_selection.transaction@);
        }
    }

    if !query.field_selection.log.is_empty() {
        let ghost pre = query.field_selection.log@;
        let n0 = "log_index".to_owned();
        insert_if_missing(&mut query.field_selection.log, &n0);
        let n1 = "transaction_index".to_owned();
        insert_if_missing(&mut query.field_selection.log, &n1);
        let n2 = "block_number".to_owned();
        insert_if_missing(&mut query.field_selection.log, &n2);
        proof {
            lemma_names_of_empty(pre);
            assert(names_of(query.field_selection.log@) =~= augmented(
                names_of(pre),
                log_join_names(),
            ));
        }
    } else {
        proof {
            lemma_names_of_empty(query.field_selection.log@);
        }
    }
}

/// Law: augmenting a selection twice yields the same set of names as
/// augmenting it once.
pub proof fn lemma_augment_idempotent(s: Set<Seq<char>>, joins: Set<Seq<char>>)
    ensures
        augmented(augmented(s, joins), joins) =~= augmented(s, joins),
{
    broadcast use vstd::set::group_set_axioms;

    if !s.is_empty() {
        assert(exists|x: Seq<char>| s.contains(x)) by {
            if !(exists|x: Seq<char>| s.contains(x)) {
                assert(s =~= Set::<Seq<char>>::empty());
            }
        }
        let x = choose|x: Seq<char>| s.contains(x);
        assert(s.union(joins).contains(x));
        assert(!augmented(s, joins).is_empty());
        assert(s.union(joins).union(joins) =~= s.union(joins));
    }
}

/// Law: an empty selection is left empty by augmentation.
pub proof fn lemma_augment_empty(s: Set<Seq<char>>, joins: Set<Seq<char>>)
    requires
        s.is_empty(),
    ensures
        augmented(s, joins) =~= Set::<Seq<char>>::empty(),
{
}

} // verus!
