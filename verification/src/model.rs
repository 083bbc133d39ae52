use vstd::prelude::*;
use crate::entry::EntryView;

verus! {

/// Some row of `s` has the hash `hash`.
pub open spec fn has_hash(s: Seq<EntryView>, hash: Seq<char>) -> bool {
    exists|i: int| 0 <= i < s.len() && (#[trigger] s[i]).hash == hash
}

/// The place of a row with the hash `hash`, where there is one.
pub open spec fn place_of(s: Seq<EntryView>, hash: Seq<char>) -> int {
    choose|i: int| 0 <= i < s.len() && (#[trigger] s[i]).hash == hash
}

/// No two rows share a hash.
pub open spec fn distinct_hashes(s: Seq<EntryView>) -> bool {
    forall|i: int, j: int|
        0 <= i < s.len() && 0 <= j < s.len() && (#[trigger] s[i]).hash == (#[trigger] s[j]).hash
            ==> i == j
}

/// The ledger after one row came in: it takes the place of the row with its
/// hash, or goes to the end where no row has that hash.
pub open spec fn upsert(s: Seq<EntryView>, e: EntryView) -> Seq<EntryView> {
    if has_hash(s, e.hash) {
        s.update(place_of(s, e.hash), e)
    } else {
        s.push(e)
    }
}

/// The ledger after the rows of `es` came in, one after the other.
pub open spec fn upsert_all(s: Seq<EntryView>, es: Seq<EntryView>) -> Seq<EntryView>
    decreases es.len(),
{
    if es.len() == 0 {
        s
    } else {
        upsert(upsert_all(s, es.drop_last()), es.last())
    }
}

/// The ledger after the row with the hash `hash`, if there is one, got a new
/// name and description.
pub open spec fn enrich(
    s: Seq<EntryView>,
    hash: Seq<char>,
    name: Seq<char>,
    description: Seq<char>,
) -> Seq<EntryView> {
    if has_hash(s, hash) {
        let i = place_of(s, hash);
        s.update(i, EntryView { name: name, description: description, ..s[i] })
    } else {
        s
    }
}

/// A row that comes in keeps the hashes distinct.
pub proof fn lemma_upsert_distinct(s: Seq<EntryView>, e: EntryView)
    requires
        distinct_hashes(s),
    ensures
        distinct_hashes(upsert(s, e)),
        has_hash(upsert(s, e), e.hash),
        upsert(s, e)[place_of(upsert(s, e), e.hash)] == e,
{
    let t = upsert(s, e);
    if has_hash(s, e.hash) {
        let p = place_of(s, e.hash);
        assert(t[p].hash == e.hash);
        assert forall|i: int, j: int|
            0 <= i < t.len() && 0 <= j < t.len() && (#[trigger] t[i]).hash == (
            #[trigger] t[j]).hash implies i == j by {
            assert(t[i].hash == s[i].hash);
            assert(t[j].hash == s[j].hash);
        }
    } else {
        assert(t[s.len() as int].hash == e.hash);
        assert forall|i: int, j: int|
            0 <= i < t.len() && 0 <= j < t.len() && (#[trigger] t[i]).hash == (
            #[trigger] t[j]).hash implies i == j by {
            if i < s.len() {
                assert(t[i] == s[i]);
            }
            if j < s.len() {
                assert(t[j] == s[j]);
            }
        }
    }
    let q = place_of(t, e.hash);
    assert(t[q].hash == e.hash);
    if has_hash(s, e.hash) {
        assert(t[place_of(s, e.hash)].hash == e.hash);
    } else {
        assert(t[s.len() as int].hash == e.hash);
    }
}

/// Of two rows with one hash that come in one after the other, the second
/// stays: the ledger then holds exactly one row with that hash, and it is the
/// second; the ledger is what it would be had the first never come.
pub proof fn lemma_last_write_wins(s: Seq<EntryView>, rows: Seq<EntryView>)
    requires
        distinct_hashes(s),
        rows.len() == 2,
        rows[0].hash == rows[1].hash,
    ensures
        upsert_all(s, rows) == upsert(upsert(s, rows[0]), rows[1]),
        upsert_all(s, rows) == upsert(s, rows[1]),
        upsert_all(s, rows).len() == upsert(s, rows[0]).len(),
        distinct_hashes(upsert_all(s, rows)),
        has_hash(upsert_all(s, rows), rows[1].hash),
        forall|i: int|
            0 <= i < upsert_all(s, rows).len() && (#[trigger] upsert_all(s, rows)[i]).hash
                == rows[1].hash ==> upsert_all(s, rows)[i] == rows[1],
{
    let first = rows[0];
    let second = rows[1];
    assert(rows.drop_last().drop_last() =~= Seq::<EntryView>::empty());
    assert(upsert_all(s, rows.drop_last().drop_last()) == s);
    assert(upsert_all(s, rows.drop_last()) == upsert(s, first));
    assert(upsert_all(s, rows) == upsert(upsert(s, first), second));
    let t = upsert(s, first);
    lemma_upsert_distinct(s, first);
    lemma_upsert_distinct(t, second);
    let u = upsert(t, second);
    let q = place_of(t, second.hash);
    assert(t[q].hash == second.hash);
    if has_hash(s, first.hash) {
        let p = place_of(s, first.hash);
        assert(t[p].hash == second.hash);
        assert(p == q);
        assert(u =~= upsert(s, second));
    } else {
        assert(t[s.len() as int].hash == second.hash);
        assert(q == s.len());
        assert(u =~= upsert(s, second));
    }
    assert forall|i: int| 0 <= i < u.len() && (#[trigger] u[i]).hash == second.hash implies u[i]
        == second by {
        assert(u[q].hash == second.hash);
    }
}

/// Enriching makes no row and removes none: the ledger keeps its length and
/// every row keeps its hash, date and amount. With a hash that no row has it
/// changes nothing.
pub proof fn lemma_enrich_creates_nothing(
    s: Seq<EntryView>,
    hash: Seq<char>,
    name: Seq<char>,
    description: Seq<char>,
)
    ensures
        enrich(s, hash, name, description).len() == s.len(),
        forall|i: int|
            0 <= i < s.len() ==> {
                let r = #[trigger] enrich(s, hash, name, description)[i];
                &&& r.hash == s[i].hash
                &&& r.date == s[i].date
                &&& r.negative == s[i].negative
                &&& r.magnitude == s[i].magnitude
            },
        !has_hash(s, hash) ==> enrich(s, hash, name, description) == s,
        distinct_hashes(s) ==> distinct_hashes(enrich(s, hash, name, description)),
{
    let t = enrich(s, hash, name, description);
    if distinct_hashes(s) {
        assert forall|i: int, j: int|
            0 <= i < t.len() && 0 <= j < t.len() && (#[trigger] t[i]).hash == (
            #[trigger] t[j]).hash implies i == j by {
            assert(t[i].hash == s[i].hash);
            assert(t[j].hash == s[j].hash);
        }
    }
}

/// The ledger as a mapping from hash to row.
pub open spec fn as_map(s: Seq<EntryView>) -> Map<Seq<char>, EntryView> {
    Map::new(|hash: Seq<char>| has_hash(s, hash), |hash: Seq<char>| s[place_of(s, hash)])
}

/// In a ledger with distinct hashes, each row is what the mapping holds for its hash.
pub proof fn lemma_row_in_map(s: Seq<EntryView>, i: int)
    requires
        distinct_hashes(s),
        0 <= i < s.len(),
    ensures
        as_map(s).dom().contains(s[i].hash),
        as_map(s)[s[i].hash] == s[i],
        place_of(s, s[i].hash) == i,
{
    assert(s[i].hash == s[i].hash);
    let p = place_of(s, s[i].hash);
    assert(s[p].hash == s[i].hash);
}

/// A row that comes in is an insertion into the mapping: its hash then maps to
/// it, and every other hash maps to what it mapped to before.
pub proof fn lemma_upsert_is_insert(s: Seq<EntryView>, e: EntryView)
    requires
        distinct_hashes(s),
    ensures
        as_map(upsert(s, e)) == as_map(s).insert(e.hash, e),
{
    let t = upsert(s, e);
    lemma_upsert_distinct(s, e);
    assert forall|h: Seq<char>| has_hash(t, h) <==> (has_hash(s, h) || h == e.hash) by {
        if has_hash(t, h) {
            let q = place_of(t, h);
            assert(t[q].hash == h);
            if h != e.hash {
                assert(t[q] == s[q]);
                assert(s[q].hash == h);
            }
        }
        if has_hash(s, h) && h != e.hash {
            let q = place_of(s, h);
            assert(s[q].hash == h);
            assert(t[q] == s[q]);
            assert(t[q].hash == h);
        }
    }
    assert forall|h: Seq<char>| has_hash(t, h) && h != e.hash implies t[place_of(t, h)] == s[place_of(
        s,
        h,
    )] by {
        let q = place_of(t, h);
        assert(t[q].hash == h);
        assert(t[q] == s[q]);
        lemma_row_in_map(s, q);
    }
    assert(as_map(t) =~= as_map(s).insert(e.hash, e));
}

/// Enriching keeps the hashes that the mapping knows, and changes at most the
/// row of the one hash.
pub proof fn lemma_enrich_keeps_hashes(
    s: Seq<EntryView>,
    hash: Seq<char>,
    name: Seq<char>,
    description: Seq<char>,
)
    requires
        distinct_hashes(s),
    ensures
        as_map(enrich(s, hash, name, description)).dom() == as_map(s).dom(),
        forall|h: Seq<char>|
            h != hash && as_map(s).dom().contains(h) ==> #[trigger] as_map(
                enrich(s, hash, name, description),
            )[h] == as_map(s)[h],
{
    let t = enrich(s, hash, name, description);
    lemma_enrich_creates_nothing(s, hash, name, description);
    assert forall|h: Seq<char>| has_hash(t, h) <==> has_hash(s, h) by {
        if has_hash(t, h) {
            let q = place_of(t, h);
            assert(t[q].hash == s[q].hash);
        }
        if has_hash(s, h) {
            let q = place_of(s, h);
            assert(t[q].hash == s[q].hash);
        }
    }
    assert(as_map(t).dom() =~= as_map(s).dom());
    assert forall|h: Seq<char>| h != hash && as_map(s).dom().contains(h) implies #[trigger] as_map(
        t,
    )[h] == as_map(s)[h] by {
        let q = place_of(s, h);
        assert(s[q].hash == h);
        assert(t[q].hash == s[q].hash);
        lemma_row_in_map(t, q);
        assert(t[q] == s[q]);
    }
}

} // verus!
