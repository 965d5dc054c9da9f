use vstd::prelude::*;

use crate::codec::BookId;
use crate::error::{DeleteOutcome, InsertOutcome, RepositoryError, UpdateOutcome};
use crate::models::{BookItem, BookRecord};
use crate::order::{lemma_bytes_le_total, lemma_bytes_le_transitive, name_le, names_in_order};

verus! {

/// Records in ascending order of name.
pub open spec fn sorted_by_name(s: Seq<BookRecord>) -> bool {
    forall|i: int, j: int| 0 <= i < j < s.len() ==> name_le(#[trigger] s[i].name, #[trigger] s[j].name)
}

/// `s` lists the records of `m`, each once, in ascending order of name,
/// and each record of `m` is stored under its own identifier.
pub open spec fn listing_of(s: Seq<BookRecord>, m: Map<u128, BookRecord>) -> bool {
    &&& sorted_by_name(s)
    &&& forall|i: int, j: int| 0 <= i < j < s.len() ==> #[trigger] s[i].id != #[trigger] s[j].id
    &&& forall|i: int| 0 <= i < s.len() ==> m.contains_key(#[trigger] s[i].id) && m[s[i].id] == s[i]
    &&& forall|k: u128| #[trigger] m.contains_key(k) ==> exists|i: int| 0 <= i < s.len() && #[trigger] s[i].id == k
}

/// The records of `s` whose name is `name`, in the order of `s`.
pub open spec fn named(s: Seq<BookRecord>, name: Seq<char>) -> Seq<BookRecord> {
    s.filter(|r: BookRecord| r.name == name)
}

/// The page of `s` of at most `take` records after the first `skip`.
pub open spec fn page(s: Seq<BookRecord>, take: int, skip: int) -> Seq<BookRecord> {
    let lo = if skip < s.len() { skip } else { s.len() as int };
    let hi = if skip + take < s.len() { skip + take } else { s.len() as int };
    s.subrange(lo, hi)
}

/// Number of documents that deleting identifier `id` from `m` removes.
pub open spec fn deleted_count(m: Map<u128, BookRecord>, id: u128) -> u64 {
    if m.contains_key(id) { 1 } else { 0 }
}

/// What a lookup of identifier `id` in `m` finds.
pub open spec fn found(m: Map<u128, BookRecord>, id: u128) -> Option<BookRecord> {
    if m.contains_key(id) { Some(m[id]) } else { None }
}

/// Book items held in memory, with the same contract as the document store:
/// identifiers unique, listing in ascending order of name.
pub struct MemoryBookItemRepository {
    items: Vec<BookItem>,
    contents: Ghost<Map<u128, BookRecord>>,
}

proof fn lemma_insert_keeps_listing(s: Seq<BookRecord>, m: Map<u128, BookRecord>, p: int, x: BookRecord)
    requires
        listing_of(s, m),
        0 <= p <= s.len(),
        !m.contains_key(x.id),
        forall|i: int| 0 <= i < p ==> name_le(#[trigger] s[i].name, x.name),
        p < s.len() ==> !name_le(s[p].name, x.name),
    ensures
        listing_of(s.insert(p, x), m.insert(x.id, x)),
{
    let t = s.insert(p, x);
    let n = m.insert(x.id, x);
    assert forall|j: int| p < j < t.len() implies name_le(x.name, #[trigger] t[j].name) by {
        lemma_bytes_le_total(vstd::utf8::encode_utf8(s[p].name), vstd::utf8::encode_utf8(x.name));
        if j - 1 > p {
            assert(name_le(s[p].name, s[j - 1].name));
            lemma_bytes_le_transitive(
                vstd::utf8::encode_utf8(x.name),
                vstd::utf8::encode_utf8(s[p].name),
                vstd::utf8::encode_utf8(s[j - 1].name),
            );
        }
    }
    assert forall|i: int, j: int| 0 <= i < j < t.len() implies name_le(
        #[trigger] t[i].name,
        #[trigger] t[j].name,
    ) by {
        if i < p && j > p {
            assert(name_le(s[i].name, s[j - 1].name));
        } else if i > p {
            assert(name_le(s[i - 1].name, s[j - 1].name));
        } else if j < p {
            assert(name_le(s[i].name, s[j].name));
        }
    }
    assert forall|i: int, j: int| 0 <= i < j < t.len() implies #[trigger] t[i].id
        != #[trigger] t[j].id by {
        if i < p && j > p {
            assert(s[i].id != s[j - 1].id);
        } else if i > p {
            assert(s[i - 1].id != s[j - 1].id);
        } else if j < p {
            assert(s[i].id != s[j].id);
        } else if i == p {
            assert(m.contains_key(s[j - 1].id));
        } else {
            assert(m.contains_key(s[i].id));
        }
    }
    assert forall|i: int| 0 <= i < t.len() implies n.contains_key(#[trigger] t[i].id) && n[t[i].id]
        == t[i] by {
        if i < p {
            assert(m.contains_key(s[i].id));
        } else if i > p {
            assert(m.contains_key(s[i - 1].id));
        }
    }
    assert forall|k: u128| #[trigger] n.contains_key(k) implies exists|i: int|
        0 <= i < t.len() && #[trigger] t[i].id == k by {
        if k == x.id {
            assert(t[p].id == k);
        } else {
            assert(m.contains_key(k));
            let i = choose|i: int| 0 <= i < s.len() && #[trigger] s[i].id == k;
            if i < p {
                assert(t[i].id == k);
            } else {
                assert(t[i + 1].id == k);
            }
        }
    }
}

proof fn lemma_remove_keeps_listing(s: Seq<BookRecord>, m: Map<u128, BookRecord>, j: int)
    requires
        listing_of(s, m),
        0 <= j < s.len(),
    ensures
        listing_of(s.remove(j), m.remove(s[j].id)),
{
    let t = s.remove(j);
    let n = m.remove(s[j].id);
    assert forall|a: int, b: int| 0 <= a < b < t.len() implies name_le(
        #[trigger] t[a].name,
        #[trigger] t[b].name,
    ) by {
        let a0 = if a < j { a } else { a + 1 };
        let b0 = if b < j { b } else { b + 1 };
        assert(name_le(s[a0].name, s[b0].name));
    }
    assert forall|a: int, b: int| 0 <= a < b < t.len() implies #[trigger] t[a].id
        != #[trigger] t[b].id by {
        let a0 = if a < j { a } else { a + 1 };
        let b0 = if b < j { b } else { b + 1 };
        assert(s[a0].id != s[b0].id);
    }
    assert forall|a: int| 0 <= a < t.len() implies n.contains_key(#[trigger] t[a].id) && n[t[a].id]
        == t[a] by {
        let a0 = if a < j { a } else { a + 1 };
        assert(m.contains_key(s[a0].id));
        assert(s[a0].id != s[j].id);
    }
    assert forall|k: u128| #[trigger] n.contains_key(k) implies exists|a: int|
        0 <= a < t.len() && #[trigger] t[a].id == k by {
        assert(m.contains_key(k));
        let i = choose|i: int| 0 <= i < s.len() && #[trigger] s[i].id == k;
        if i < j {
            assert(t[i].id == k);
        } else {
            assert(i != j);
            assert(t[i - 1].id == k);
        }
    }
}

impl MemoryBookItemRepository {
    /// The stored records, in the order in which the store lists them.
    pub closed spec fn entries(&self) -> Seq<BookRecord> {
        self.items@.map_values(|b: BookItem| b@)
    }

    /// The stored records by identifier.
    pub closed spec fn contents(&self) -> Map<u128, BookRecord> {
        self.contents@
    }

    pub open spec fn wf(&self) -> bool {
        listing_of(self.entries(), self.contents())
    }

    /// An empty store.
    pub fn new() -> (r: MemoryBookItemRepository)
        ensures
            r.wf(),
            r.contents() == Map::<u128, BookRecord>::empty(),
            r.entries() == Seq::<BookRecord>::empty(),
    {
        let r = MemoryBookItemRepository { items: Vec::new(), contents: Ghost(Map::empty()) };
        assert(r.entries() =~= Seq::<BookRecord>::empty());
        r
    }

    /// Index of the item with identifier `id`, if one is stored.
    fn position_of(&self, id: BookId) -> (r: Option<usize>)
        requires
            self.wf(),
        ensures
            r matches Some(j) ==> j < self.entries().len() && self.entries()[j as int].id == id.value,
            r is None <==> !self.contents().contains_key(id.value),
    {
        let mut j: usize = 0;
        while j < self.items.len()
            invariant
                self.wf(),
                j <= self.items@.len(),
                forall|i: int| 0 <= i < j ==> #[trigger] self.entries()[i].id != id.value,
            decreases self.items@.len() - j,
        {
            if self.items[j].id.value == id.value {
                assert(self.contents().contains_key(self.entries()[j as int].id));
                return Some(j);
            }
            j += 1;
        }
        proof {
            if self.contents().contains_key(id.value) {
                let i = choose|i: int|
                    0 <= i < self.entries().len() && #[trigger] self.entries()[i].id == id.value;
                assert(self.entries()[i].id != id.value);
            }
        }
        None
    }

    /// Stores `item` at its place in name order; its identifier is new.
    fn insert_sorted(&mut self, item: BookItem)
        requires
            old(self).wf(),
            !old(self).contents().contains_key(item.id.value),
        ensures
            final(self).wf(),
            final(self).contents() == old(self).contents().insert(item.id.value, item@),
    {
        let mut p: usize = 0;
        loop
            invariant
                self.wf(),
                p <= self.items@.len(),
                forall|i: int| 0 <= i < p ==> name_le(#[trigger] self.entries()[i].name, item.name@),
            ensures
                self.wf(),
                p <= self.items@.len(),
                forall|i: int| 0 <= i < p ==> name_le(#[trigger] self.entries()[i].name, item.name@),
                p < self.items@.len() ==> !name_le(self.entries()[p as int].name, item.name@),
            decreases self.items@.len() - p,
        {
            if p == self.items.len() {
                break;
            }
            if !names_in_order(&self.items[p].name, &item.name) {
                break;
            }
            p += 1;
        }
        let ghost s = self.entries();
        let ghost m = self.contents();
        proof {
            lemma_insert_keeps_listing(s, m, p as int, item@);
        }
        let ghost rec = item@;
        self.items.insert(p, item);
        self.contents = Ghost(m.insert(rec.id, rec));
        assert(self.entries() =~= s.insert(p as int, rec));
    }

    /// Removes the item at index `j`.
    fn remove_at(&mut self, j: usize)
        requires
            old(self).wf(),
            j < old(self).entries().len(),
        ensures
            final(self).wf(),
            final(self).contents() == old(self).contents().remove(old(self).entries()[j as int].id),
    {
        let ghost s = self.entries();
        let ghost m = self.contents();
        proof {
            lemma_remove_keeps_listing(s, m, j as int);
        }
        self.items.remove(j);
        self.contents = Ghost(m.remove(s[j as int].id));
        assert(self.entries() =~= s.remove(j as int));
    }
}

impl MemoryBookItemRepository {
    /// Stores `item`; fails with a query error, and changes nothing, when an
    /// item with its identifier is already stored.
    pub fn add(&mut self, item: BookItem) -> (r: Result<InsertOutcome, RepositoryError>)
        requires
            old(self).wf(),
        ensures
            final(self).wf(),
            r is Err <==> old(self).contents().contains_key(item.id.value),
            r matches Err(e) ==> e is Query && final(self).contents() == old(self).contents()
                && final(self).entries() == old(self).entries(),
            r matches Ok(o) ==> o.inserted_id == item.id && final(self).contents() == old(
                self,
            ).contents().insert(item.id.value, item@),
    {
        match self.position_of(item.id) {
            Some(_) => Err(RepositoryError::Query(String::from_str("duplicate identifier"))),
            None => {
                let id = item.id;
                self.insert_sorted(item);
                Ok(InsertOutcome { inserted_id: id })
            },
        }
    }

    /// The item stored under `id`, if any.
    pub fn find_by_id(&self, id: BookId) -> (r: Option<BookItem>)
        requires
            self.wf(),
        ensures
            r matches Some(b) ==> found(self.contents(), id.value) == Some(b@) && b.id == id,
            r is None <==> found(self.contents(), id.value) is None,
    {
        match self.position_of(id) {
            Some(j) => {
                let b = self.items[j].duplicate();
                assert(self.contents().contains_key(self.entries()[j as int].id));
                Some(b)
            },
            None => None,
        }
    }

    /// Every stored item whose name is exactly `name`, in listing order.
    pub fn find_by_name(&self, name: &String) -> (r: Vec<BookItem>)
        requires
            self.wf(),
        ensures
            r@.map_values(|b: BookItem| b@) == named(self.entries(), name@),
    {
        let mut r: Vec<BookItem> = Vec::new();
        let mut i: usize = 0;
        while i < self.items.len()
            invariant
                i <= self.items@.len(),
                r@.map_values(|b: BookItem| b@) == named(self.entries().subrange(0, i as int), name@),
            decreases self.items@.len() - i,
        {
            let ghost before = r@.map_values(|b: BookItem| b@);
            proof {
                let s = self.entries().subrange(0, i as int);
                assert(self.entries().subrange(0, i + 1) =~= s.push(self.entries()[i as int]));
                s.lemma_filter_push(self.entries()[i as int], |x: BookRecord| x.name == name@);
            }
            if self.items[i].name == *name {
                let b = self.items[i].duplicate();
                r.push(b);
                assert(r@.map_values(|b: BookItem| b@) =~= before.push(b@));
            }
            i += 1;
        }
        assert(self.entries().subrange(0, self.items@.len() as int) =~= self.entries());
        r
    }

    /// The stored items in ascending order of name, without the first
    /// `skip`, at most `take` of them.
    pub fn find_all(&self, take: u64, skip: u64) -> (r: Vec<BookItem>)
        requires
            self.wf(),
        ensures
            r@.map_values(|b: BookItem| b@) == page(self.entries(), take as int, skip as int),
    {
        let len = self.items.len();
        let lo: usize = if (skip as u128) < (len as u128) {
            skip as usize
        } else {
            len
        };
        let hi: usize = if (take as u128) < ((len - lo) as u128) {
            lo + take as usize
        } else {
            len
        };
        let mut r: Vec<BookItem> = Vec::new();
        let mut k: usize = lo;
        while k < hi
            invariant
                lo <= k <= hi <= self.items@.len(),
                r@.map_values(|b: BookItem| b@) == self.entries().subrange(lo as int, k as int),
            decreases hi - k,
        {
            let ghost before = r@.map_values(|b: BookItem| b@);
            let b = self.items[k].duplicate();
            r.push(b);
            assert(r@.map_values(|b: BookItem| b@) =~= before.push(b@));
            assert(self.entries().subrange(lo as int, k + 1) =~= self.entries().subrange(
                lo as int,
                k as int,
            ).push(self.entries()[k as int]));
            k += 1;
        }
        assert(page(self.entries(), take as int, skip as int) =~= self.entries().subrange(
            lo as int,
            hi as int,
        ));
        r
    }

    /// Replaces the name, title, description and url of the item stored
    /// under `item.id`; changes nothing when no such item is stored.
    pub fn update(&mut self, item: BookItem) -> (r: UpdateOutcome)
        requires
            old(self).wf(),
        ensures
            final(self).wf(),
            old(self).contents().contains_key(item.id.value) ==> r.matched_count == 1
                && r.modified_count == (if old(self).contents()[item.id.value] == item@ {
                0u64
            } else {
                1u64
            }) && final(self).contents() == old(self).contents().insert(item.id.value, item@),
            !old(self).contents().contains_key(item.id.value) ==> r.matched_count == 0
                && r.modified_count == 0 && final(self).contents() == old(self).contents(),
    {
        match self.position_of(item.id) {
            None => UpdateOutcome { matched_count: 0, modified_count: 0 },
            Some(j) => {
                let ghost m = self.contents();
                proof {
                    assert(m.contains_key(self.entries()[j as int].id));
                }
                let same = self.items[j].name == item.name && self.items[j].title == item.title
                    && self.items[j].description == item.description && self.items[j].url
                    == item.url;
                if same {
                    assert(m.insert(item.id.value, item@) =~= m);
                    UpdateOutcome { matched_count: 1, modified_count: 0 }
                } else {
                    self.remove_at(j);
                    self.insert_sorted(item);
                    assert(m.remove(item.id.value).insert(item.id.value, item@) =~= m.insert(
                        item.id.value,
                        item@,
                    ));
                    UpdateOutcome { matched_count: 1, modified_count: 1 }
                }
            },
        }
    }

    /// Removes the item stored under `id`, if any, and reports how many went.
    pub fn delete(&mut self, id: BookId) -> (r: DeleteOutcome)
        requires
            old(self).wf(),
        ensures
            final(self).wf(),
            final(self).contents() == old(self).contents().remove(id.value),
            r.deleted_count == deleted_count(old(self).contents(), id.value),
    {
        match self.position_of(id) {
            None => {
                assert(self.contents().remove(id.value) =~= self.contents());
                DeleteOutcome { deleted_count: 0 }
            },
            Some(j) => {
                self.remove_at(j);
                DeleteOutcome { deleted_count: 1 }
            },
        }
    }
}

} // verus!
