use vstd::prelude::*;

use crate::codec::{id_text, BookId, ParseError};
use crate::models::{BookDocument, BookItem};

verus! {

/// An equality filter: documents whose `field` holds exactly `value`.
#[derive(Clone, Debug)]
pub struct Filter {
    pub field: String,
    pub value: String,
}

/// The fields that an update replaces wholesale.
#[derive(Clone, Debug)]
pub struct FieldUpdate {
    pub name: String,
    pub title: String,
    pub description: String,
    pub url: String,
}

/// A page of the whole collection in ascending order of `sort_field`.
/// `limit` is `None` where the page is not bounded.
#[derive(Clone, Debug)]
pub struct FindWindow {
    pub limit: Option<i64>,
    pub skip: u64,
    pub sort_field: String,
    pub ascending: bool,
}

pub open spec fn id_key() -> Seq<char> {
    seq!['_', 'i', 'd']
}

pub open spec fn name_key() -> Seq<char> {
    seq!['n', 'a', 'm', 'e']
}

/// Largest limit that the store takes; a page of this size or more is unbounded.
pub const MAX_LIMIT: u64 = 9223372036854775807;

/// The limit that the store is given for a page of at most `take` items (`take > 0`).
pub open spec fn limit_for(take: u64) -> Option<i64> {
    if take <= MAX_LIMIT {
        Some(take as i64)
    } else {
        None
    }
}

/// Filter on the stored text of the identifier, the key that the store indexes.
pub fn id_filter(id: BookId) -> (r: Filter)
    ensures
        r.field@ == id_key(),
        r.value@ == id_text(id.value),
{
    let field = String::from_str("_id");
    proof {
        reveal_strlit("_id");
    }
    Filter { field, value: id.encode() }
}

/// Filter on an exact name.
pub fn name_filter(name: &String) -> (r: Filter)
    ensures
        r.field@ == name_key(),
        r.value@ == name@,
{
    let field = String::from_str("name");
    proof {
        reveal_strlit("name");
    }
    Filter { field, value: name.clone() }
}

/// The replacement of every mutable field by those of `item`.
pub fn field_update(item: &BookItem) -> (r: FieldUpdate)
    ensures
        r.name@ == item.name@,
        r.title@ == item.title@,
        r.description@ == item.description@,
        r.url@ == item.url@,
{
    FieldUpdate {
        name: item.name.clone(),
        title: item.title.clone(),
        description: item.description.clone(),
        url: item.url.clone(),
    }
}

/// The query for a page of at most `take` items after the first `skip`,
/// in ascending order of name. A page of zero items needs no query: `None`.
pub fn find_all_window(take: u64, skip: u64) -> (r: Option<FindWindow>)
    ensures
        r is None <==> take == 0,
        r matches Some(w) ==> w.limit == limit_for(take) && w.skip == skip
            && w.sort_field@ == name_key() && w.ascending,
{
    if take == 0 {
        return None;
    }
    let limit = if take <= MAX_LIMIT {
        Some(take as i64)
    } else {
        None
    };
    let sort_field = String::from_str("name");
    proof {
        reveal_strlit("name");
    }
    Some(FindWindow { limit, skip, sort_field, ascending: true })
}

/// The item of a document that a lookup by identifier returned, if any.
pub fn decode_found(doc: Option<&BookDocument>) -> (r: Result<Option<BookItem>, ParseError>)
    ensures
        doc is None ==> r matches Ok(None),
        doc matches Some(d) ==> match r {
            Ok(Some(b)) => crate::codec::uuid_from_text(d.id@) == Some(b.id.value)
                && b.name@ == d.name@ && b.title@ == d.title@
                && b.description@ == d.description@ && b.url@ == d.url@,
            Ok(None) => false,
            Err(e) => crate::codec::uuid_from_text(d.id@) is None && e.input@ == d.id@,
        },
{
    match doc {
        None => Ok(None),
        Some(d) => match d.to_book_item() {
            Ok(b) => Ok(Some(b)),
            Err(e) => Err(e),
        },
    }
}

/// `b` is what the stored document `d` holds.
pub open spec fn decoded_from(b: BookItem, d: BookDocument) -> bool {
    &&& crate::codec::uuid_from_text(d.id@) == Some(b.id.value)
    &&& b.name@ == d.name@
    &&& b.title@ == d.title@
    &&& b.description@ == d.description@
    &&& b.url@ == d.url@
}

/// The items of documents that a query returned, in order; fails on the
/// first document whose `_id` is not the text of an identifier.
pub fn decode_all(docs: &Vec<BookDocument>) -> (r: Result<Vec<BookItem>, ParseError>)
    ensures
        r is Ok <==> forall|i: int|
            0 <= i < docs@.len() ==> crate::codec::uuid_from_text(#[trigger] docs@[i].id@) is Some,
        r matches Ok(items) ==> items@.len() == docs@.len() && forall|i: int|
            0 <= i < docs@.len() ==> decoded_from(#[trigger] items@[i], docs@[i]),
        r matches Err(e) ==> exists|i: int|
            0 <= i < docs@.len() && #[trigger] docs@[i].id@ == e.input@
                && crate::codec::uuid_from_text(docs@[i].id@) is None,
{
    let mut items: Vec<BookItem> = Vec::new();
    let mut i: usize = 0;
    while i < docs.len()
        invariant
            i <= docs@.len(),
            items@.len() == i,
            forall|j: int| 0 <= j < i ==> decoded_from(#[trigger] items@[j], docs@[j]),
        decreases docs@.len() - i,
    {
        match docs[i].to_book_item() {
            Ok(b) => items.push(b),
            Err(e) => {
                proof {
                    assert(docs@[i as int].id@ == e.input@);
                    assert(crate::codec::uuid_from_text(docs@[i as int].id@) is None);
                }
                return Err(e);
            },
        }
        i += 1;
    }
    assert forall|j: int| 0 <= j < docs@.len() implies crate::codec::uuid_from_text(
        #[trigger] docs@[j].id@,
    ) is Some by {
        assert(decoded_from(items@[j], docs@[j]));
    }
    Ok(items)
}

} // verus!
