use vstd::prelude::*;
use crate::entry::EntryView;

verus! {

/// No row is dated after a later row.
pub open spec fn ordered_by_date(s: Seq<EntryView>) -> bool {
    forall|i: int, j: int| 0 <= i <= j < s.len() ==> s[i].date <= s[j].date
}

/// Where a row dated `date` goes into `s`: behind every row that is not dated after it.
pub open spec fn slot_by_date(s: Seq<EntryView>, date: int) -> int
    decreases s.len(),
{
    if s.len() == 0 {
        0
    } else if s.last().date <= date {
        s.len() as int
    } else {
        slot_by_date(s.drop_last(), date)
    }
}

/// `s` with `e` put behind the last row that is not dated after it.
pub open spec fn insert_by_date(s: Seq<EntryView>, e: EntryView) -> Seq<EntryView> {
    s.insert(slot_by_date(s, e.date), e)
}

/// The rows of `s` by ascending date; rows of one date keep their order.
pub open spec fn sort_by_date(s: Seq<EntryView>) -> Seq<EntryView>
    decreases s.len(),
{
    if s.len() == 0 {
        Seq::empty()
    } else {
        insert_by_date(sort_by_date(s.drop_last()), s.last())
    }
}

/// The slot lies in the sequence, every row from it on is dated later, and the
/// row before it is not.
pub proof fn lemma_slot_by_date(s: Seq<EntryView>, date: int)
    ensures
        0 <= slot_by_date(s, date) <= s.len(),
        forall|k: int| slot_by_date(s, date) <= k < s.len() ==> s[k].date > date,
        slot_by_date(s, date) > 0 ==> s[slot_by_date(s, date) - 1].date <= date,
    decreases s.len(),
{
    if s.len() > 0 && s.last().date > date {
        let init = s.drop_last();
        lemma_slot_by_date(init, date);
        let p = slot_by_date(init, date);
        assert forall|k: int| p <= k < s.len() implies s[k].date > date by {
            if k < init.len() {
                assert(init[k] == s[k]);
            }
        }
        if p > 0 {
            assert(init[p - 1] == s[p - 1]);
        }
    }
}

/// A position with the two properties of the slot is the slot.
pub proof fn lemma_slot_is(s: Seq<EntryView>, date: int, i: int)
    requires
        0 <= i <= s.len(),
        forall|k: int| i <= k < s.len() ==> s[k].date > date,
        i > 0 ==> s[i - 1].date <= date,
    ensures
        slot_by_date(s, date) == i,
    decreases s.len(),
{
    if s.len() > 0 && s.last().date > date {
        let init = s.drop_last();
        assert forall|k: int| i <= k < init.len() implies init[k].date > date by {
            assert(init[k] == s[k]);
        }
        if i > 0 {
            assert(init[i - 1] == s[i - 1]);
        }
        lemma_slot_is(init, date, i);
    }
}

/// Inserting by date keeps an ordered sequence ordered and adds exactly the row.
pub proof fn lemma_insert_by_date(s: Seq<EntryView>, e: EntryView)
    requires
        ordered_by_date(s),
    ensures
        ordered_by_date(insert_by_date(s, e)),
        insert_by_date(s, e).len() == s.len() + 1,
        insert_by_date(s, e).to_multiset() == s.to_multiset().insert(e),
{
    lemma_slot_by_date(s, e.date);
    let p = slot_by_date(s, e.date);
    let t = insert_by_date(s, e);
    assert forall|i: int, j: int| 0 <= i <= j < t.len() implies t[i].date <= t[j].date by {
        if i < p && j == p {
            assert(s[i].date <= s[p - 1].date);
        } else if i < p && j > p {
            assert(s[i].date <= s[p - 1].date);
            assert(t[j] == s[j - 1]);
        } else if i == p && j > p {
            assert(t[j] == s[j - 1]);
        } else if i > p {
            assert(t[i] == s[i - 1]);
            assert(t[j] == s[j - 1]);
        }
    }
    t.to_multiset_ensures();
    assert(t.remove(p) =~= s);
    assert(t[p] == e);
    assert(t.contains(e));
    assert(t.to_multiset() =~= s.to_multiset().insert(e));
}

/// Sorting by date orders the rows and keeps each of them, as often as it occurred.
pub proof fn lemma_sort_by_date(s: Seq<EntryView>)
    ensures
        ordered_by_date(sort_by_date(s)),
        sort_by_date(s).len() == s.len(),
        sort_by_date(s).to_multiset() == s.to_multiset(),
    decreases s.len(),
{
    if s.len() == 0 {
        assert(s =~= Seq::empty());
    } else {
        lemma_sort_by_date(s.drop_last());
        lemma_insert_by_date(sort_by_date(s.drop_last()), s.last());
        assert(s.drop_last().push(s.last()) =~= s);
        s.drop_last().to_multiset_ensures();
    }
}

/// Sorting rows that are already ordered by date changes nothing.
pub proof fn lemma_sort_of_ordered(s: Seq<EntryView>)
    requires
        ordered_by_date(s),
    ensures
        sort_by_date(s) == s,
    decreases s.len(),
{
    if s.len() == 0 {
        assert(s =~= Seq::empty());
    } else {
        let init = s.drop_last();
        lemma_sort_of_ordered(init);
        lemma_slot_is(init, s.last().date, init.len() as int);
        assert(init.insert(init.len() as int, s.last()) =~= s);
    }
}

/// Sorting by date is idempotent: a second sort returns what the first returned,
/// whatever order the rows came in.
pub proof fn lemma_sort_by_date_idempotent(s: Seq<EntryView>)
    ensures
        sort_by_date(sort_by_date(s)) == sort_by_date(s),
        ordered_by_date(sort_by_date(s)),
{
    lemma_sort_by_date(s);
    lemma_sort_of_ordered(sort_by_date(s));
}

} // verus!
