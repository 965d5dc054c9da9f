use vstd::prelude::*;

use crate::collection::{collection_name, CollectionNames};
use crate::connection::{settings_for, ConnectionSettings};

verus! {

/// Repository of book items in a document store, known by the store's
/// address and credentials. It holds no other state: every operation
/// opens its own handle with these settings.
pub struct BookItemRepository {
    database_uri: String,
    database_name: String,
    database_user: String,
    database_password: String,
}

impl BookItemRepository {
    pub closed spec fn uri(&self) -> Seq<char> {
        self.database_uri@
    }

    pub closed spec fn database(&self) -> Seq<char> {
        self.database_name@
    }

    pub closed spec fn user(&self) -> Seq<char> {
        self.database_user@
    }

    pub closed spec fn password(&self) -> Seq<char> {
        self.database_password@
    }

    pub fn new(
        database_uri: String,
        database_name: String,
        database_user: String,
        database_password: String,
    ) -> (r: BookItemRepository)
        ensures
            r.uri() == database_uri@,
            r.database() == database_name@,
            r.user() == database_user@,
            r.password() == database_password@,
    {
        BookItemRepository { database_uri, database_name, database_user, database_password }
    }

    /// Settings of the handle that each operation opens: the credentials
    /// are checked against the repository's own database, within the
    /// fixed connect timeout.
    pub fn create_client(&self) -> (r: ConnectionSettings)
        ensures
            settings_for(r, self.uri(), self.database(), self.user(), self.password()),
    {
        ConnectionSettings::new(
            &self.database_uri,
            &self.database_name,
            &self.database_user,
            &self.database_password,
        )
    }

    /// Name of the collection that holds the book items.
    pub fn get_book_items_collection(&self) -> (r: String)
        ensures
            r@ == collection_name(CollectionNames::BookItem),
    {
        CollectionNames::BookItem.to_string()
    }
}

} // verus!
