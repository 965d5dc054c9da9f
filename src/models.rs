use vstd::prelude::*;

use crate::codec::{id_text, uuid_from_text, BookId, ParseError};

verus! {

/// A book item: the one entity that the store holds.
#[derive(Clone, Debug, PartialEq, Eq)]
pub struct BookItem {
    pub id: BookId,
    pub name: String,
    pub title: String,
    pub description: String,
    pub url: String,
}

/// The fields of a book item that a caller supplies when adding one.
#[derive(Clone, Debug, PartialEq, Eq)]
pub struct BookItemDto {
    pub name: String,
    pub title: String,
    pub description: String,
    pub url: String,
}

/// A book item as a caller supplies it for an update, keyed by its identifier.
#[derive(Clone, Debug, PartialEq, Eq)]
pub struct UpdateBookItemDto {
    pub id: BookId,
    pub name: String,
    pub title: String,
    pub description: String,
    pub url: String,
}

/// Storage form of a book item: the identifier as its canonical text
/// under the key `_id`, the other fields as they are.
#[derive(Clone, Debug, PartialEq, Eq)]
pub struct BookDocument {
    pub id: String,
    pub name: String,
    pub title: String,
    pub description: String,
    pub url: String,
}

/// Mathematical value of a book item: its identifier and the text of each field.
pub struct BookRecord {
    pub id: u128,
    pub name: Seq<char>,
    pub title: Seq<char>,
    pub description: Seq<char>,
    pub url: Seq<char>,
}

impl View for BookItem {
    type V = BookRecord;

    open spec fn view(&self) -> BookRecord {
        BookRecord {
            id: self.id.value,
            name: self.name@,
            title: self.title@,
            description: self.description@,
            url: self.url@,
        }
    }
}

/// `b` holds the identifier `id` and the caller's fields of `dto`.
pub open spec fn built_from_dto(b: BookItem, id: BookId, dto: BookItemDto) -> bool {
    &&& b.id == id
    &&& b.name@ == dto.name@
    &&& b.title@ == dto.title@
    &&& b.description@ == dto.description@
    &&& b.url@ == dto.url@
}

/// `d` is the storage form of `b`.
pub open spec fn document_of(b: BookItem, d: BookDocument) -> bool {
    &&& d.id@ == id_text(b.id.value)
    &&& d.name@ == b.name@
    &&& d.title@ == b.title@
    &&& d.description@ == b.description@
    &&& d.url@ == b.url@
}

impl BookItem {
    /// A copy of this item with every field equal.
    pub fn duplicate(&self) -> (r: BookItem)
        ensures
            r == *self,
    {
        BookItem {
            id: self.id,
            name: self.name.clone(),
            title: self.title.clone(),
            description: self.description.clone(),
            url: self.url.clone(),
        }
    }

    /// The item with identifier `id` and the fields of `dto`.
    pub fn from_dto(id: BookId, dto: &BookItemDto) -> (r: BookItem)
        ensures
            built_from_dto(r, id, *dto),
    {
        BookItem {
            id,
            name: dto.name.clone(),
            title: dto.title.clone(),
            description: dto.description.clone(),
            url: dto.url.clone(),
        }
    }

    /// A new item with a fresh random identifier and the fields of `dto`.
    pub fn create(dto: &BookItemDto) -> (r: BookItem)
        ensures
            built_from_dto(r, r.id, *dto),
    {
        let id = BookId::new_random();
        BookItem::from_dto(id, dto)
    }

    /// The storage form of this item.
    pub fn to_document(&self) -> (r: BookDocument)
        ensures
            document_of(*self, r),
    {
        BookDocument {
            id: self.id.encode(),
            name: self.name.clone(),
            title: self.title.clone(),
            description: self.description.clone(),
            url: self.url.clone(),
        }
    }
}

impl UpdateBookItemDto {
    /// The item that this update writes.
    pub fn to_book_item(&self) -> (r: BookItem)
        ensures
            r.id == self.id,
            r.name@ == self.name@,
            r.title@ == self.title@,
            r.description@ == self.description@,
            r.url@ == self.url@,
    {
        BookItem {
            id: self.id,
            name: self.name.clone(),
            title: self.title.clone(),
            description: self.description.clone(),
            url: self.url.clone(),
        }
    }
}

impl BookDocument {
    /// The item that this stored document holds; fails when its `_id`
    /// is not the text of an identifier.
    pub fn to_book_item(&self) -> (r: Result<BookItem, ParseError>)
        ensures
            r matches Ok(b) ==> uuid_from_text(self.id@) == Some(b.id.value)
                && b.name@ == self.name@ && b.title@ == self.title@
                && b.description@ == self.description@ && b.url@ == self.url@,
            r matches Err(e) ==> uuid_from_text(self.id@) is None && e.input@ == self.id@,
            forall|b: BookItem| document_of(b, *self) ==> (r matches Ok(c) && c@ == b@),
    {
        match BookId::decode(self.id.as_str()) {
            Ok(id) => Ok(
                BookItem {
                    id,
                    name: self.name.clone(),
                    title: self.title.clone(),
                    description: self.description.clone(),
                    url: self.url.clone(),
                },
            ),
            Err(e) => Err(e),
        }
    }
}

} // verus!
