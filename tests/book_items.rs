use book_items::codec::BookId;
use book_items::collection::CollectionNames;
use book_items::connection::{ConnectionSettings, CONNECT_TIMEOUT_SECS};
use book_items::error::{lookup_status, outcome_status, RepositoryError};
use book_items::memory::MemoryBookItemRepository;
use book_items::order::names_in_order;
use book_items::models::{BookDocument, BookItem, BookItemDto, UpdateBookItemDto};
use book_items::query::{decode_all, decode_found, field_update, find_all_window, id_filter, name_filter};
use book_items::repository::BookItemRepository;

const DUNE_ID: &str = "11111111-1111-1111-1111-111111111111";

fn item(id: u128, name: &str) -> BookItem {
    BookItem {
        id: BookId::from_u128(id),
        name: name.to_string(),
        title: format!("{} title", name),
        description: format!("{} description", name),
        url: format!("http://example/{}", name),
    }
}

fn names(items: &[BookItem]) -> Vec<String> {
    items.iter().map(|b| b.name.clone()).collect()
}

#[test]
fn encode_writes_hyphenated_lower_case() {
    let id = BookId::from_u128(0x67e5504410b1426f9247bb680e5fe0c8);
    assert_eq!(id.encode(), "67e55044-10b1-426f-9247-bb680e5fe0c8");
    assert_eq!(BookId::from_u128(0).encode(), "00000000-0000-0000-0000-000000000000");
}

#[test]
fn decode_reads_canonical_text() {
    let id = BookId::decode(DUNE_ID).unwrap();
    assert_eq!(id.as_u128(), 0x11111111111111111111111111111111);
    assert_eq!(id.encode(), DUNE_ID);
}

#[test]
fn decode_accepts_other_forms() {
    let v = 0x67e5504410b1426f9247bb680e5fe0c8u128;
    assert_eq!(BookId::decode("67E55044-10B1-426F-9247-BB680E5FE0C8").unwrap().as_u128(), v);
    assert_eq!(BookId::decode("67e5504410b1426f9247bb680e5fe0c8").unwrap().as_u128(), v);
    assert_eq!(BookId::decode("{67e55044-10b1-426f-9247-bb680e5fe0c8}").unwrap().as_u128(), v);
    assert_eq!(
        BookId::decode("urn:uuid:67e55044-10b1-426f-9247-bb680e5fe0c8").unwrap().as_u128(),
        v
    );
}

#[test]
fn decode_refuses_malformed_text() {
    let e = BookId::decode("not-a-uuid").unwrap_err();
    assert_eq!(e.input, "not-a-uuid");
    assert!(BookId::decode("").is_err());
    assert!(BookId::decode("11111111-1111-1111-1111-11111111111g").is_err());
}

#[test]
fn encode_then_decode_gives_identifier_back() {
    for v in [0u128, 1, u128::MAX, 0x0123456789abcdef0123456789abcdef] {
        let id = BookId::from_u128(v);
        assert_eq!(BookId::decode(&id.encode()).unwrap(), id);
    }
}

#[test]
fn random_identifiers_differ() {
    let a = BookId::new_random();
    let b = BookId::new_random();
    assert_ne!(a, b);
    assert_eq!(BookId::decode(&a.encode()).unwrap(), a);
}

#[test]
fn collection_of_book_items() {
    assert_eq!(CollectionNames::BookItem.to_string(), "BookItem");
    let repo = BookItemRepository::new(
        "mongodb://localhost:27017".to_string(),
        "test".to_string(),
        "admin".to_string(),
        "secret".to_string(),
    );
    assert_eq!(repo.get_book_items_collection(), "BookItem");
}

#[test]
fn connection_settings_bind_credentials_to_database() {
    let repo = BookItemRepository::new(
        "mongodb://localhost:27017".to_string(),
        "library".to_string(),
        "reader".to_string(),
        "secret".to_string(),
    );
    let s = repo.create_client();
    assert_eq!(s.uri, "mongodb://localhost:27017");
    assert_eq!(s.default_database, "library");
    assert_eq!(s.auth_source, "library");
    assert_eq!(s.username, "reader");
    assert_eq!(s.password, "secret");
    assert_eq!(s.connect_timeout_secs, 5);
    assert_eq!(CONNECT_TIMEOUT_SECS, 5);
    let t = ConnectionSettings::new(
        &"mongodb://db".to_string(),
        &"d".to_string(),
        &"u".to_string(),
        &"p".to_string(),
    );
    assert_eq!(t.auth_source, "d");
}

#[test]
fn filters_match_on_identifier_text_and_name() {
    let f = id_filter(BookId::decode(DUNE_ID).unwrap());
    assert_eq!(f.field, "_id");
    assert_eq!(f.value, DUNE_ID);
    let g = name_filter(&"dune".to_string());
    assert_eq!(g.field, "name");
    assert_eq!(g.value, "dune");
}

#[test]
fn field_update_replaces_the_four_fields() {
    let b = item(7, "dune");
    let u = field_update(&b);
    assert_eq!(u.name, "dune");
    assert_eq!(u.title, "dune title");
    assert_eq!(u.description, "dune description");
    assert_eq!(u.url, "http://example/dune");
}

#[test]
fn find_all_window_bounds() {
    assert!(find_all_window(0, 0).is_none());
    assert!(find_all_window(0, 9).is_none());
    let w = find_all_window(2, 1).unwrap();
    assert_eq!(w.limit, Some(2));
    assert_eq!(w.skip, 1);
    assert_eq!(w.sort_field, "name");
    assert!(w.ascending);
    let all = find_all_window(u64::MAX, 0).unwrap();
    assert_eq!(all.limit, None);
    let max = find_all_window(i64::MAX as u64, 3).unwrap();
    assert_eq!(max.limit, Some(i64::MAX));
}

#[test]
fn document_round_trip() {
    let b = item(0xabc, "dune");
    let d = b.to_document();
    assert_eq!(d.id, "00000000-0000-0000-0000-000000000abc");
    assert_eq!(d.name, "dune");
    assert_eq!(d.to_book_item().unwrap(), b);
}

#[test]
fn document_with_bad_identifier() {
    let d = BookDocument {
        id: "xyz".to_string(),
        name: "n".to_string(),
        title: "t".to_string(),
        description: "d".to_string(),
        url: "u".to_string(),
    };
    assert_eq!(d.to_book_item().unwrap_err().input, "xyz");
    assert!(decode_found(Some(&d)).is_err());
    assert!(matches!(decode_found(None), Ok(None)));
    let good = item(1, "a").to_document();
    assert_eq!(decode_found(Some(&good)).unwrap().unwrap(), item(1, "a"));
    let e = decode_all(&vec![good.clone(), d]).unwrap_err();
    assert_eq!(e.input, "xyz");
    let all = decode_all(&vec![good, item(2, "b").to_document()]).unwrap();
    assert_eq!(all, vec![item(1, "a"), item(2, "b")]);
}

#[test]
fn dto_conversions() {
    let dto = BookItemDto {
        name: "dune".to_string(),
        title: "Dune".to_string(),
        description: "scifi novel".to_string(),
        url: "http://example/dune".to_string(),
    };
    let id = BookId::from_u128(5);
    let b = BookItem::from_dto(id, &dto);
    assert_eq!(b.id, id);
    assert_eq!(b.title, "Dune");
    let c = BookItem::create(&dto);
    assert_eq!(c.name, "dune");
    assert_eq!(c.url, "http://example/dune");
    let u = UpdateBookItemDto {
        id,
        name: "n".to_string(),
        title: "t".to_string(),
        description: "d".to_string(),
        url: "u".to_string(),
    };
    let ub = u.to_book_item();
    assert_eq!(ub.id, id);
    assert_eq!(ub.description, "d");
}

#[test]
fn dune_scenario() {
    let mut repo = MemoryBookItemRepository::new();
    let dune = BookItem {
        id: BookId::decode(DUNE_ID).unwrap(),
        name: "dune".to_string(),
        title: "Dune".to_string(),
        description: "scifi novel".to_string(),
        url: "http://example/dune".to_string(),
    };
    let id = dune.id;
    assert!(repo.add(dune.clone()).is_ok());
    assert_eq!(repo.find_by_id(BookId::decode(DUNE_ID).unwrap()), Some(dune.clone()));
    let mut changed = dune.clone();
    changed.title = "Dune (new ed.)".to_string();
    let o = repo.update(changed.clone());
    assert_eq!(o.matched_count, 1);
    assert_eq!(o.modified_count, 1);
    let now = repo.find_by_id(id).unwrap();
    assert_eq!(now.title, "Dune (new ed.)");
    assert_eq!(now.id, id);
    assert_eq!(now.name, "dune");
    assert_eq!(now.description, "scifi novel");
    assert_eq!(now.url, "http://example/dune");
    assert_eq!(repo.delete(id).deleted_count, 1);
    assert_eq!(repo.find_by_id(id), None);
}

#[test]
fn add_then_find_by_id() {
    let mut repo = MemoryBookItemRepository::new();
    for (i, n) in ["m", "a", "z", "a"].iter().enumerate() {
        let b = item(i as u128 + 10, n);
        let o = repo.add(b.clone()).unwrap();
        assert_eq!(o.inserted_id, b.id);
        assert_eq!(repo.find_by_id(b.id), Some(b));
    }
    assert_eq!(repo.find_by_id(BookId::from_u128(99)), None);
}

#[test]
fn add_duplicate_identifier_fails() {
    let mut repo = MemoryBookItemRepository::new();
    repo.add(item(1, "a")).unwrap();
    let r = repo.add(item(1, "b"));
    assert!(matches!(r, Err(RepositoryError::Query(_))));
    assert_eq!(repo.find_by_id(BookId::from_u128(1)), Some(item(1, "a")));
    assert_eq!(repo.find_all(u64::MAX, 0).len(), 1);
}

#[test]
fn delete_then_not_found() {
    let mut repo = MemoryBookItemRepository::new();
    repo.add(item(1, "a")).unwrap();
    repo.add(item(2, "b")).unwrap();
    assert_eq!(repo.delete(BookId::from_u128(1)).deleted_count, 1);
    assert_eq!(repo.find_by_id(BookId::from_u128(1)), None);
    assert_eq!(repo.find_by_id(BookId::from_u128(2)), Some(item(2, "b")));
}

#[test]
fn delete_twice_reports_zero() {
    let mut repo = MemoryBookItemRepository::new();
    repo.add(item(1, "a")).unwrap();
    assert_eq!(repo.delete(BookId::from_u128(1)).deleted_count, 1);
    assert_eq!(repo.delete(BookId::from_u128(1)).deleted_count, 0);
    assert_eq!(repo.delete(BookId::from_u128(42)).deleted_count, 0);
}

#[test]
fn update_keeps_identity_and_other_items() {
    let mut repo = MemoryBookItemRepository::new();
    repo.add(item(1, "a")).unwrap();
    repo.add(item(2, "b")).unwrap();
    let mut e = item(1, "zz");
    e.url = "http://other".to_string();
    let o = repo.update(e.clone());
    assert_eq!((o.matched_count, o.modified_count), (1, 1));
    assert_eq!(repo.find_by_id(BookId::from_u128(1)), Some(e.clone()));
    assert_eq!(repo.find_by_id(BookId::from_u128(2)), Some(item(2, "b")));
    assert_eq!(names(&repo.find_all(10, 0)), vec!["b", "zz"]);
    let same = repo.update(e.clone());
    assert_eq!((same.matched_count, same.modified_count), (1, 0));
    let missing = repo.update(item(3, "c"));
    assert_eq!((missing.matched_count, missing.modified_count), (0, 0));
    assert_eq!(repo.find_by_id(BookId::from_u128(3)), None);
}

#[test]
fn find_all_pages_in_name_order() {
    let mut repo = MemoryBookItemRepository::new();
    repo.add(item(3, "C")).unwrap();
    repo.add(item(1, "A")).unwrap();
    repo.add(item(2, "B")).unwrap();
    assert_eq!(names(&repo.find_all(2, 1)), vec!["B", "C"]);
    assert_eq!(names(&repo.find_all(u64::MAX, 0)), vec!["A", "B", "C"]);
    assert_eq!(names(&repo.find_all(1, 0)), vec!["A"]);
    assert!(repo.find_all(0, 0).is_empty());
    assert!(repo.find_all(5, 3).is_empty());
    assert!(repo.find_all(5, u64::MAX).is_empty());
}

#[test]
fn find_all_orders_by_bytes() {
    let mut repo = MemoryBookItemRepository::new();
    repo.add(item(1, "b")).unwrap();
    repo.add(item(2, "B")).unwrap();
    repo.add(item(3, "ab")).unwrap();
    repo.add(item(4, "a")).unwrap();
    repo.add(item(5, "é")).unwrap();
    assert_eq!(names(&repo.find_all(u64::MAX, 0)), vec!["B", "a", "ab", "b", "é"]);
}

#[test]
fn find_by_name_finds_exactly_the_matches() {
    let mut repo = MemoryBookItemRepository::new();
    repo.add(item(1, "X")).unwrap();
    repo.add(item(2, "Y")).unwrap();
    repo.add(item(3, "X")).unwrap();
    repo.add(item(4, "XX")).unwrap();
    let mut found: Vec<u128> = repo.find_by_name(&"X".to_string()).iter().map(|b| b.id.as_u128()).collect();
    found.sort();
    assert_eq!(found, vec![1, 3]);
    assert!(repo.find_by_name(&"Z".to_string()).is_empty());
}

#[test]
fn status_codes() {
    let ok: Result<Option<u8>, RepositoryError> = Ok(Some(1));
    let none: Result<Option<u8>, RepositoryError> = Ok(None);
    let parse: Result<Option<u8>, RepositoryError> =
        Err(RepositoryError::Parse(BookId::decode("bad").unwrap_err()));
    let conn: Result<u8, RepositoryError> = Err(RepositoryError::Connection("down".to_string()));
    let query: Result<u8, RepositoryError> = Err(RepositoryError::Query("dup".to_string()));
    assert_eq!(lookup_status(&ok), 200);
    assert_eq!(lookup_status(&none), 404);
    assert_eq!(lookup_status(&parse), 400);
    assert_eq!(outcome_status(&conn), 500);
    assert_eq!(outcome_status(&query), 500);
    assert_eq!(outcome_status(&Ok::<u8, RepositoryError>(0)), 200);
}

#[test]
fn names_compare_by_bytes() {
    let s = |x: &str| x.to_string();
    assert!(names_in_order(&s("A"), &s("B")));
    assert!(!names_in_order(&s("B"), &s("A")));
    assert!(names_in_order(&s("a"), &s("a")));
    assert!(names_in_order(&s(""), &s("a")));
    assert!(!names_in_order(&s("ab"), &s("a")));
    assert!(names_in_order(&s("Z"), &s("a")));
    assert!(names_in_order(&s("z"), &s("é")));
}
