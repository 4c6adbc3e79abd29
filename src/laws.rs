use vstd::prelude::*;
use crate::record::{RecordModel, wire_of, wire_of_all};
use crate::store::{has_key, key_of, store_wf, stored_record};
use crate::sync::{
    Submission, TodoSync, listing_rows, lemma_placeholders_are_pending, pending_rows,
};
use crate::todo::TodoModel;

verus! {

/// After `title` is added under a fresh key to a store that held no item of
/// that title, the listing holds exactly one item titled `title`, and that
/// item carries the non-empty key as its identifier.
pub proof fn add_then_list_shows_one(before: Seq<RecordModel>, title: Seq<char>, key: Seq<char>)
    requires
        store_wf(before),
        key.len() > 0,
        !has_key(before, key),
        forall|i: int| 0 <= i < before.len() ==> (#[trigger] before[i]).title != title,
    ensures
        ({
            let listed = wire_of_all(before.push(stored_record(title, false, key)));
            exists|i: int|
                0 <= i < listed.len() && (#[trigger] listed[i]).title == title && listed[i].id
                    == Some(key) && key.len() > 0 && !listed[i].completed && forall|j: int|
                    0 <= j < listed.len() && (#[trigger] listed[j]).title == title ==> j == i
        }),
{
    let after = before.push(stored_record(title, false, key));
    let listed = wire_of_all(after);
    let n = before.len() as int;
    assert(listed[n] == wire_of(after[n]));
    assert forall|j: int| 0 <= j < listed.len() && (#[trigger] listed[j]).title == title implies j
        == n by {
        if j < n {
            assert(listed[j] == wire_of(before[j]));
        }
    }
}

/// Deleting the item at position `i` removes exactly that item from the
/// listing: the others stay, in their order, and no item with its identifier
/// remains.
pub proof fn delete_then_list_drops_exactly_it(before: Seq<RecordModel>, i: int)
    requires
        store_wf(before),
        0 <= i < before.len(),
    ensures
        wire_of_all(before.remove(i)) == wire_of_all(before).remove(i),
        forall|j: int|
            0 <= j < before.len() - 1 ==> (#[trigger] wire_of_all(before.remove(i))[j]).id != Some(
                key_of(before[i]),
            ),
{
    let after = before.remove(i);
    assert(wire_of_all(after) =~= wire_of_all(before).remove(i));
    assert forall|j: int| 0 <= j < before.len() - 1 implies (#[trigger] wire_of_all(after)[j]).id
        != Some(key_of(before[i])) by {
        let j2 = if j < i { j } else { j + 1 };
        assert(after[j] == before[j2]);
        assert(wire_of_all(after)[j] == wire_of(after[j]));
    }
}

/// Two listings of one store state, with no mutation between them, are equal.
pub proof fn list_is_repeatable(s: Seq<RecordModel>, first: Seq<TodoModel>, second: Seq<TodoModel>)
    requires
        first == wire_of_all(s),
        second == wire_of_all(s),
    ensures
        first == second,
{
}

/// A resolved submission contributes no placeholder: the placeholders are
/// those of the other submissions.
pub proof fn resolved_submission_shows_no_placeholder(subs: Seq<Submission>, i: int)
    requires
        0 <= i < subs.len(),
        subs[i].resolved_at is Some,
    ensures
        pending_rows(subs) == pending_rows(subs.remove(i)),
    decreases subs.len(),
{
    if i == subs.len() - 1 {
        assert(subs.remove(i) =~= subs.drop_last());
    } else {
        let rest = subs.drop_last();
        resolved_submission_shows_no_placeholder(rest, i);
        assert(subs.remove(i).drop_last() =~= rest.remove(i));
        assert(subs.remove(i).last() == subs.last());
    }
}

/// Once an addition has resolved and a listing for the current versions has
/// arrived, the view shows that listing followed by the placeholders of the
/// other submissions only: the placeholder has given way to the listing.
pub proof fn placeholder_replaced_by_listing(s: TodoSync, i: int)
    requires
        s.wf(),
        s.listed_add == s.add_version,
        0 <= i < s.submissions@.len(),
        s.submissions@[i].resolved_at is Some,
    ensures
        s.rows_spec() == listing_rows(s.listing) + pending_rows(s.submissions@.remove(i)),
{
    lemma_placeholders_are_pending(s.submissions@, s.listed_add);
    resolved_submission_shows_no_placeholder(s.submissions@, i);
}

} // verus!
