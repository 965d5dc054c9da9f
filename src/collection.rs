use vstd::prelude::*;

verus! {

/// The kinds of entity that the store holds, one collection each.
#[derive(Clone, Copy, Debug, PartialEq, Eq, Structural)]
pub enum CollectionNames {
    BookItem,
}

/// Name of the collection that holds entities of the given kind.
pub open spec fn collection_name(kind: CollectionNames) -> Seq<char> {
    match kind {
        CollectionNames::BookItem => seq!['B', 'o', 'o', 'k', 'I', 't', 'e', 'm'],
    }
}

impl CollectionNames {
    /// Name of the physical collection for this kind.
    pub fn to_string(&self) -> (r: String)
        ensures
            r@ == collection_name(*self),
    {
        match self {
            CollectionNames::BookItem => {
                let r = String::from_str("BookItem");
                proof {
                    reveal_strlit("BookItem");
                }
                r
            },
        }
    }
}

} // verus!
