use vstd::prelude::*;

use crate::memory::{deleted_count, found, listing_of, named, page, sorted_by_name};
use crate::models::BookRecord;

verus! {

/// Every record of `m` is stored under its own identifier.
pub open spec fn keyed_by_id(m: Map<u128, BookRecord>) -> bool {
    forall|k: u128| #[trigger] m.contains_key(k) ==> m[k].id == k
}

pub proof fn lemma_listing_keyed_by_id(s: Seq<BookRecord>, m: Map<u128, BookRecord>)
    requires
        listing_of(s, m),
    ensures
        keyed_by_id(m),
{
    assert forall|k: u128| #[trigger] m.contains_key(k) implies m[k].id == k by {
        let i = choose|i: int| 0 <= i < s.len() && #[trigger] s[i].id == k;
    }
}

/// An item added to a store that did not hold its identifier is then
/// found under that identifier, equal to what was added.
pub proof fn law_add_then_find(m: Map<u128, BookRecord>, e: BookRecord)
    requires
        !m.contains_key(e.id),
    ensures
        found(m.insert(e.id, e), e.id) == Some(e),
{
}

/// Once the item under an identifier is deleted, a lookup of that
/// identifier finds nothing.
pub proof fn law_delete_then_find(m: Map<u128, BookRecord>, id: u128)
    ensures
        found(m.remove(id), id) is None,
{
}

/// Updating a stored item keeps its identifier: the lookup of that
/// identifier finds the new fields under the same identifier, every
/// other item is untouched, and every lookup still finds an item with the
/// identifier that was asked for.
pub proof fn law_update_preserves_identity(s: Seq<BookRecord>, m: Map<u128, BookRecord>, e: BookRecord)
    requires
        listing_of(s, m),
        m.contains_key(e.id),
    ensures
        found(m.insert(e.id, e), e.id) == Some(e),
        m.insert(e.id, e)[e.id].id == m[e.id].id,
        m.insert(e.id, e).dom() == m.dom(),
        forall|k: u128| k != e.id ==> #[trigger] found(m.insert(e.id, e), k) == found(m, k),
        keyed_by_id(m.insert(e.id, e)),
{
    lemma_listing_keyed_by_id(s, m);
    assert(m.insert(e.id, e).dom() =~= m.dom());
}

/// A page of a listing in name order is in name order, and holds at most
/// `take` records, fewer only where the listing runs out.
pub proof fn law_page_in_name_order(s: Seq<BookRecord>, take: nat, skip: nat)
    requires
        sorted_by_name(s),
    ensures
        sorted_by_name(page(s, take as int, skip as int)),
        page(s, take as int, skip as int).len() == (if skip >= s.len() {
            0
        } else if skip + take <= s.len() {
            take as int
        } else {
            s.len() - skip
        }),
{
    let p = page(s, take as int, skip as int);
    let lo = if skip < s.len() { skip as int } else { s.len() as int };
    assert forall|i: int, j: int| 0 <= i < j < p.len() implies crate::order::name_le(
        #[trigger] p[i].name,
        #[trigger] p[j].name,
    ) by {
        assert(p[i] == s[lo + i] && p[j] == s[lo + j]);
    }
}

/// The lookup by name finds exactly the stored records with that name:
/// none more, none fewer.
pub proof fn law_name_lookup(s: Seq<BookRecord>, m: Map<u128, BookRecord>, name: Seq<char>)
    requires
        listing_of(s, m),
    ensures
        forall|rec: BookRecord|
            #[trigger] named(s, name).contains(rec) <==> (rec.name == name && exists|k: u128|
                m.contains_key(k) && #[trigger] m[k] == rec),
{
    let pred = |r: BookRecord| r.name == name;
    assert forall|rec: BookRecord| #[trigger] named(s, name).contains(rec) implies (rec.name
        == name && exists|k: u128| m.contains_key(k) && #[trigger] m[k] == rec) by {
        let i = choose|i: int| 0 <= i < s.filter(pred).len() && s.filter(pred)[i] == rec;
        s.lemma_filter_pred(pred, i);
        s.lemma_filter_contains_rev(pred, rec);
        let j = choose|j: int| 0 <= j < s.len() && s[j] == rec;
        assert(m.contains_key(s[j].id) && m[s[j].id] == rec);
    }
    assert forall|rec: BookRecord|
        (rec.name == name && exists|k: u128| m.contains_key(k) && #[trigger] m[k] == rec) implies
        #[trigger] named(s, name).contains(rec) by {
        let k = choose|k: u128| m.contains_key(k) && #[trigger] m[k] == rec;
        let i = choose|i: int| 0 <= i < s.len() && #[trigger] s[i].id == k;
        s.lemma_filter_contains(pred, i);
    }
}

/// Deleting the same identifier twice: the second deletion removes no
/// document and leaves the store as the first one left it.
pub proof fn law_delete_twice(m: Map<u128, BookRecord>, id: u128)
    ensures
        deleted_count(m.remove(id), id) == 0,
        m.remove(id).remove(id) == m.remove(id),
{
    assert(m.remove(id).remove(id) =~= m.remove(id));
}

} // verus!
