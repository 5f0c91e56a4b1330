use andrate::credentials::RegisterPayload;
use andrate::credentials::UserRecord;
use andrate::library::LibraryEntry;
use andrate::library::LibraryError;
use andrate::library::select_items;
use andrate::library::LibraryItem;
use andrate::library::QueryLibraryPayload;
use andrate::library::UpsertLibraryPayload;
use andrate::library::Upserted;
use andrate::number::RealBits;
use andrate::store::Database;

fn number(x: f64) -> RealBits {
    RealBits { bits: x.to_bits() }
}

fn with_users(names: &[&str]) -> Database {
    let mut db = Database::new();
    for name in names {
        let payload =
            RegisterPayload { username: name.to_string(), password: "secret1".to_string() };
        db.register_with_hash(&payload, "hash".to_string()).unwrap();
    }
    db
}

fn submission(
    user_id: i64,
    item_id: &str,
    item_type: &str,
    title: &str,
    status: &str,
    rating: Option<f64>,
) -> UpsertLibraryPayload {
    UpsertLibraryPayload {
        user_id,
        item_id: item_id.to_string(),
        item_type: item_type.to_string(),
        title: title.to_string(),
        poster_url: Some(format!("https://img/{}.jpg", item_id)),
        status: status.to_string(),
        rating: rating.map(number),
    }
}

fn query(user_id: i64, item_type: Option<&str>, status: Option<&str>) -> QueryLibraryPayload {
    QueryLibraryPayload {
        user_id,
        item_type: item_type.map(|s| s.to_string()),
        status: status.map(|s| s.to_string()),
    }
}

fn ids(items: &[LibraryItem]) -> Vec<i64> {
    items.iter().map(|item| item.id).collect()
}

#[test]
fn upsert_inserts_a_new_entry() {
    let mut db = with_users(&["alice"]);
    let r = db.upsert_library(submission(1, "603", "movie", "The Matrix", "planning", Some(9.5)));
    assert_eq!(r, Ok(Upserted::Inserted(1)));
    assert_eq!(db.entry_count(), 1);
    assert_eq!(
        db.entries()[0],
        LibraryEntry {
            id: 1,
            user_id: 1,
            item_id: "603".to_string(),
            item_type: "movie".to_string(),
            title: "The Matrix".to_string(),
            poster_url: Some("https://img/603.jpg".to_string()),
            status: "planning".to_string(),
            rating: Some(number(9.5)),
        }
    );
}

#[test]
fn upsert_twice_keeps_one_row_with_the_latest_values() {
    let mut db = with_users(&["alice"]);
    db.upsert_library(submission(1, "1", "tv", "Other", "watching", None)).unwrap();
    let first = db.upsert_library(submission(1, "603", "movie", "The Matrix", "planning", None));
    assert_eq!(first, Ok(Upserted::Inserted(2)));
    let mut second = submission(1, "603", "movie", "Matrix", "completed", Some(8.0));
    second.poster_url = None;
    assert_eq!(db.upsert_library(second), Ok(Upserted::Replaced(2)));
    assert_eq!(db.entry_count(), 2);
    let rows: Vec<&LibraryEntry> = db
        .entries()
        .iter()
        .filter(|e| e.user_id == 1 && e.item_id == "603" && e.item_type == "movie")
        .collect();
    assert_eq!(rows.len(), 1);
    assert_eq!(rows[0].id, 2);
    assert_eq!(rows[0].title, "Matrix");
    assert_eq!(rows[0].poster_url, None);
    assert_eq!(rows[0].status, "completed");
    assert_eq!(rows[0].rating, Some(number(8.0)));
    assert_eq!(db.entries()[0].title, "Other");
    assert_eq!(db.entries()[1].id, 2);
}

#[test]
fn upsert_with_the_same_values_changes_nothing() {
    let mut db = with_users(&["alice"]);
    db.upsert_library(submission(1, "603", "movie", "The Matrix", "planning", Some(7.0))).unwrap();
    let before = db.entries().clone();
    let r = db.upsert_library(submission(1, "603", "movie", "The Matrix", "planning", Some(7.0)));
    assert_eq!(r, Ok(Upserted::Replaced(1)));
    assert_eq!(db.entries(), &before);
}

#[test]
fn the_key_is_user_item_and_type_together() {
    let mut db = with_users(&["alice", "bob"]);
    assert_eq!(
        db.upsert_library(submission(1, "5", "movie", "A", "planning", None)),
        Ok(Upserted::Inserted(1))
    );
    assert_eq!(
        db.upsert_library(submission(1, "5", "tv", "B", "planning", None)),
        Ok(Upserted::Inserted(2))
    );
    assert_eq!(
        db.upsert_library(submission(2, "5", "movie", "C", "planning", None)),
        Ok(Upserted::Inserted(3))
    );
    assert_eq!(
        db.upsert_library(submission(1, "6", "movie", "D", "planning", None)),
        Ok(Upserted::Inserted(4))
    );
    assert_eq!(
        db.upsert_library(submission(2, "5", "movie", "E", "watching", None)),
        Ok(Upserted::Replaced(3))
    );
    assert_eq!(db.entry_count(), 4);
    assert_eq!(db.entries()[2].title, "E");
    assert_eq!(db.entries()[0].title, "A");
}

#[test]
fn upsert_takes_any_status_and_type() {
    let mut db = with_users(&["alice"]);
    let r = db.upsert_library(submission(1, "x", "podcast", "T", "no such status", None));
    assert_eq!(r, Ok(Upserted::Inserted(1)));
    let r = db.upsert_library(submission(1, "", "", "", "", None));
    assert_eq!(r, Ok(Upserted::Inserted(2)));
    assert_eq!(db.entries()[0].status, "no such status");
    assert_eq!(db.entries()[0].item_type, "podcast");
}

#[test]
fn upsert_for_an_unknown_user_is_refused() {
    let mut db = with_users(&["alice"]);
    let r = db.upsert_library(submission(2, "603", "movie", "The Matrix", "planning", None));
    assert_eq!(r, Err(LibraryError::UnknownUser));
    assert_eq!(db.entry_count(), 0);
    let r = Database::new().upsert_library(submission(1, "1", "tv", "T", "planning", None));
    assert_eq!(r, Err(LibraryError::UnknownUser));
}

#[test]
fn library_errors_have_messages() {
    assert_eq!(LibraryError::UnknownUser.message(), "FOREIGN KEY constraint failed");
    assert_eq!(LibraryError::StoreFull.message(), "database or disk is full");
}

#[test]
fn a_full_table_refuses_new_entries_but_takes_overwrites() {
    let users = vec![UserRecord {
        id: 1,
        username: "alice".to_string(),
        password_hash: "h".to_string(),
    }];
    let entries = vec![LibraryEntry {
        id: i64::MAX,
        user_id: 1,
        item_id: "1".to_string(),
        item_type: "tv".to_string(),
        title: "T".to_string(),
        poster_url: None,
        status: "planning".to_string(),
        rating: None,
    }];
    let mut db = Database::load(users, entries).unwrap();
    assert_eq!(
        db.upsert_library(submission(1, "2", "tv", "U", "planning", None)),
        Err(LibraryError::StoreFull)
    );
    assert_eq!(
        db.upsert_library(submission(1, "1", "tv", "V", "watching", None)),
        Ok(Upserted::Replaced(i64::MAX))
    );
    assert_eq!(db.entry_count(), 1);
    assert_eq!(db.entries()[0].title, "V");
}

fn sample_library() -> Database {
    let mut db = with_users(&["alice", "bob"]);
    db.upsert_library(submission(1, "1", "movie", "M1", "watching", None)).unwrap();
    db.upsert_library(submission(1, "2", "movie", "M2", "completed", Some(6.5))).unwrap();
    db.upsert_library(submission(2, "1", "movie", "M1", "watching", None)).unwrap();
    db.upsert_library(submission(1, "3", "tv", "T3", "watching", None)).unwrap();
    db.upsert_library(submission(1, "4", "movie", "M4", "watching", Some(9.0))).unwrap();
    db.upsert_library(submission(2, "9", "anime", "A9", "planning", None)).unwrap();
    db
}

#[test]
fn query_with_both_filters_matches_both() {
    let db = sample_library();
    let items = db.get_library(&query(1, Some("movie"), Some("watching")));
    assert_eq!(ids(&items), vec![1, 5]);
    for item in &items {
        assert_eq!(item.item_type, "movie");
        assert_eq!(item.status, "watching");
    }
    assert_eq!(
        items[1],
        LibraryItem {
            id: 5,
            item_id: "4".to_string(),
            item_type: "movie".to_string(),
            title: "M4".to_string(),
            poster_url: Some("https://img/4.jpg".to_string()),
            status: "watching".to_string(),
            rating: Some(number(9.0)),
        }
    );
}

#[test]
fn query_without_filters_returns_the_users_entries_only() {
    let db = sample_library();
    assert_eq!(ids(&db.get_library(&query(1, None, None))), vec![1, 2, 4, 5]);
    assert_eq!(ids(&db.get_library(&query(2, None, None))), vec![3, 6]);
    assert_eq!(ids(&db.get_library(&query(3, None, None))), Vec::<i64>::new());
}

#[test]
fn query_with_one_filter() {
    let db = sample_library();
    assert_eq!(ids(&db.get_library(&query(1, Some("movie"), None))), vec![1, 2, 5]);
    assert_eq!(ids(&db.get_library(&query(1, None, Some("watching")))), vec![1, 4, 5]);
    assert_eq!(ids(&db.get_library(&query(1, Some("tv"), Some("completed")))), Vec::<i64>::new());
}

#[test]
fn query_filters_are_exact() {
    let db = sample_library();
    assert_eq!(ids(&db.get_library(&query(1, Some("Movie"), None))), Vec::<i64>::new());
    assert_eq!(ids(&db.get_library(&query(1, Some("movi"), None))), Vec::<i64>::new());
    assert_eq!(ids(&db.get_library(&query(1, Some(""), None))), Vec::<i64>::new());
    assert_eq!(ids(&db.get_library(&query(1, None, Some("watching ")))), Vec::<i64>::new());
}

#[test]
fn query_leaves_the_database_alone() {
    let db = sample_library();
    let before = db.entries().clone();
    db.get_library(&query(1, Some("movie"), Some("watching")));
    assert_eq!(db.entries(), &before);
}

#[test]
fn a_rating_comes_back_bit_for_bit() {
    let mut db = with_users(&["alice"]);
    for (k, x) in [0.0, -0.0, 7.25, 1e-300, f64::MAX, f64::INFINITY].into_iter().enumerate() {
        db.upsert_library(submission(1, &k.to_string(), "tv", "T", "watching", Some(x))).unwrap();
    }
    let items = db.get_library(&query(1, None, None));
    let back: Vec<u64> = items.iter().map(|i| i.rating.unwrap().bits).collect();
    assert_eq!(
        back,
        vec![
            0.0f64.to_bits(),
            (-0.0f64).to_bits(),
            7.25f64.to_bits(),
            1e-300f64.to_bits(),
            f64::MAX.to_bits(),
            f64::INFINITY.to_bits()
        ]
    );
    assert_eq!(f64::from_bits(back[2]), 7.25);
}

#[test]
fn load_takes_consistent_rows() {
    let users = vec![
        UserRecord { id: 3, username: "alice".to_string(), password_hash: "h".to_string() },
        UserRecord { id: 7, username: "bob".to_string(), password_hash: "h".to_string() },
    ];
    let entry = LibraryEntry {
        id: 40,
        user_id: 7,
        item_id: "1".to_string(),
        item_type: "tv".to_string(),
        title: "T".to_string(),
        poster_url: None,
        status: "planning".to_string(),
        rating: None,
    };
    let mut db = Database::load(users.clone(), vec![entry.clone()]).unwrap();
    assert_eq!(db.users(), &users);
    assert_eq!(db.entries(), &vec![entry]);
    let payload = RegisterPayload { username: "carol".to_string(), password: "secret1".to_string() };
    assert_eq!(db.register_with_hash(&payload, "h".to_string()).unwrap().user_id, 8);
    assert_eq!(
        db.upsert_library(submission(3, "2", "tv", "U", "planning", None)),
        Ok(Upserted::Inserted(41))
    );
    assert!(db.has_user(8));
    assert!(!db.has_user(4));
}

#[test]
fn load_of_nothing_is_a_fresh_database() {
    let db = Database::load(Vec::new(), Vec::new()).unwrap();
    assert_eq!(db.user_count(), 0);
    assert_eq!(db.entry_count(), 0);
}

#[test]
fn load_refuses_inconsistent_users() {
    let user = |id: i64, name: &str| UserRecord {
        id,
        username: name.to_string(),
        password_hash: "h".to_string(),
    };
    assert!(Database::load(vec![user(1, "alice"), user(1, "bob")], Vec::new()).is_none());
    assert!(Database::load(vec![user(1, "alice"), user(2, "alice")], Vec::new()).is_none());
    assert!(Database::load(vec![user(0, "alice")], Vec::new()).is_none());
    assert!(Database::load(vec![user(-5, "alice")], Vec::new()).is_none());
    assert!(Database::load(vec![user(1, "alice"), user(2, "Alice")], Vec::new()).is_some());
}

#[test]
fn load_takes_names_as_they_were_stored() {
    let user = |id: i64, name: &str| UserRecord {
        id,
        username: name.to_string(),
        password_hash: "h".to_string(),
    };
    let long = "x".repeat(51);
    let rows = vec![user(1, "a"), user(2, "al"), user(3, " alice"), user(4, &long), user(5, "")];
    let mut db = Database::load(rows.clone(), Vec::new()).unwrap();
    assert_eq!(db.users(), &rows);
    assert_eq!(
        db.upsert_library(submission(2, "1", "tv", "T", "planning", None)),
        Ok(Upserted::Inserted(1))
    );
    let payload = RegisterPayload { username: "bob".to_string(), password: "secret1".to_string() };
    assert_eq!(db.register_with_hash(&payload, "h".to_string()).unwrap().user_id, 6);
}

#[test]
fn rows_are_selected_without_a_database() {
    let db = sample_library();
    let rows = db.entries().clone();
    assert_eq!(
        select_items(&rows, &query(1, Some("movie"), Some("watching"))),
        db.get_library(&query(1, Some("movie"), Some("watching")))
    );
    assert_eq!(ids(&select_items(&rows, &query(2, None, None))), vec![3, 6]);
    let mut twice = rows.clone();
    twice.extend(rows.iter().cloned());
    assert_eq!(ids(&select_items(&twice, &query(2, None, None))), vec![3, 6, 3, 6]);
    assert_eq!(select_items(&Vec::new(), &query(1, None, None)), Vec::new());
}

#[test]
fn load_refuses_inconsistent_entries() {
    let users = vec![UserRecord {
        id: 1,
        username: "alice".to_string(),
        password_hash: "h".to_string(),
    }];
    let entry = |id: i64, user_id: i64, item_id: &str, item_type: &str| LibraryEntry {
        id,
        user_id,
        item_id: item_id.to_string(),
        item_type: item_type.to_string(),
        title: "T".to_string(),
        poster_url: None,
        status: "planning".to_string(),
        rating: None,
    };
    let load = |entries: Vec<LibraryEntry>| Database::load(users.clone(), entries);
    assert!(load(vec![entry(1, 1, "a", "tv"), entry(2, 1, "a", "movie")]).is_some());
    assert!(load(vec![entry(1, 1, "a", "tv"), entry(1, 1, "b", "tv")]).is_none());
    assert!(load(vec![entry(1, 1, "a", "tv"), entry(2, 1, "a", "tv")]).is_none());
    assert!(load(vec![entry(1, 2, "a", "tv")]).is_none());
    assert!(load(vec![entry(0, 1, "a", "tv")]).is_none());
}

#[test]
fn rows_are_found_by_identifier() {
    let db = sample_library();
    assert_eq!(db.user_with_id(2).unwrap().username, "bob");
    assert_eq!(db.user_with_id(3), None);
    assert_eq!(db.user_with_id(0), None);
    let entry = db.entry_with_id(4).unwrap();
    assert_eq!((entry.user_id, entry.item_id.as_str(), entry.item_type.as_str()), (1, "3", "tv"));
    assert_eq!(db.entry_with_id(7), None);
    assert_eq!(db.entry_with_id(-1), None);
}
