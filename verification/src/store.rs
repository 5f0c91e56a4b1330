//! The database: the table of users and the table of library entries, with
//! the four operations on them.
//!
//! The tables are kept as rows in the order in which they were inserted.
//! Identifiers are given out in increasing order and never reused.

use vstd::prelude::*;
use vstd::string::*;

use crate::credentials::answer_view;
use crate::credentials::check_login;
use crate::credentials::check_registration;
use crate::credentials::conclude_login;
use crate::credentials::has_user_id;
use crate::credentials::has_username;
use crate::credentials::hash_password;
use crate::credentials::identity_of;
use crate::credentials::login_flaw;
use crate::credentials::login_outcome;
use crate::credentials::password_matches;
use crate::credentials::registration_flaw;
use crate::credentials::user_named;
use crate::credentials::verify_password;
use crate::credentials::AuthResponse;
use crate::credentials::CredentialError;
use crate::credentials::IdentityView;
use crate::credentials::LoginPayload;
use crate::credentials::RegisterPayload;
use crate::credentials::UserRecord;
use crate::credentials::UserView;
use crate::library::created;
use crate::library::entry_index;
use crate::library::has_entry;
use crate::library::items_view;
use crate::library::overwritten;
use crate::library::same_key;
use crate::library::same_triple;
use crate::library::select_items;
use crate::library::selection;
use crate::library::EntryView;
use crate::library::LibraryEntry;
use crate::library::LibraryError;
use crate::library::LibraryItem;
use crate::library::QueryLibraryPayload;
use crate::library::UpsertLibraryPayload;
use crate::library::UpsertView;
use crate::library::Upserted;
use crate::text::text_eq;
use crate::text::trimmed;

verus! {

/// The users and the library entries of one installation.
#[derive(Clone, Debug)]
pub struct Database {
    users: Vec<UserRecord>,
    entries: Vec<LibraryEntry>,
    last_user_id: i64,
    last_entry_id: i64,
}

/// A database as the contracts see it: the rows of both tables in storage
/// order, and the largest identifier that each table has given out.
pub struct DatabaseView {
    pub users: Seq<UserView>,
    pub entries: Seq<EntryView>,
    pub last_user_id: int,
    pub last_entry_id: int,
}

impl View for Database {
    type V = DatabaseView;

    closed spec fn view(&self) -> DatabaseView {
        DatabaseView {
            users: self.users@.map_values(|u: UserRecord| u@),
            entries: self.entries@.map_values(|e: LibraryEntry| e@),
            last_user_id: self.last_user_id as int,
            last_entry_id: self.last_entry_id as int,
        }
    }
}

/// A name as a registration stores it: trimmed, and of 3 to 50 characters.
pub open spec fn valid_username(name: Seq<char>) -> bool {
    trimmed(name) == name && 3 <= name.len() <= 50
}

/// The invariant of the database, which is what its two tables constrain:
/// identifiers are positive, below the table's counter and unique; user
/// names are unique; no two entries are about the same item of the same
/// user; every entry belongs to a registered user.
pub open spec fn well_formed(db: DatabaseView) -> bool {
    &&& 0 <= db.last_user_id <= i64::MAX
    &&& 0 <= db.last_entry_id <= i64::MAX
    &&& forall|i: int|
        0 <= i < db.users.len() ==> 1 <= (#[trigger] db.users[i]).id <= db.last_user_id
    &&& forall|i: int, j: int|
        0 <= i < j < db.users.len() ==> (#[trigger] db.users[i]).id != (#[trigger] db.users[j]).id
            && db.users[i].username != db.users[j].username
    &&& forall|k: int|
        0 <= k < db.entries.len() ==> 1 <= (#[trigger] db.entries[k]).id <= db.last_entry_id
            && has_user_id(db.users, db.entries[k].user_id)
    &&& forall|k: int, l: int|
        0 <= k < l < db.entries.len() ==> (#[trigger] db.entries[k]).id
            != (#[trigger] db.entries[l]).id && !same_triple(db.entries[k], db.entries[l])
}

/// The database of a fresh installation.
pub open spec fn empty_database() -> DatabaseView {
    DatabaseView { users: Seq::empty(), entries: Seq::empty(), last_user_id: 0, last_entry_id: 0 }
}

/// Why a registration is turned down, if it is: a malformed one for its
/// flaw, then one whose trimmed name is taken, then one that finds no
/// identifier left.
pub open spec fn registration_rejection(db: DatabaseView, username: Seq<char>, password: Seq<char>)
    -> Option<CredentialError> {
    match registration_flaw(username, password) {
        Some(e) => Some(e),
        None => if has_username(db.users, trimmed(username)) {
            Some(CredentialError::UsernameTaken)
        } else if db.last_user_id >= i64::MAX {
            Some(CredentialError::StoreFull)
        } else {
            None
        },
    }
}

/// The user that the next registration creates.
pub open spec fn next_user(db: DatabaseView, name: Seq<char>, password_hash: Seq<char>) -> UserView {
    UserView { id: db.last_user_id + 1, username: name, password_hash }
}

/// The database after one more user was registered.
pub open spec fn with_user(db: DatabaseView, name: Seq<char>, password_hash: Seq<char>)
    -> DatabaseView {
    DatabaseView {
        users: db.users.push(next_user(db, name, password_hash)),
        last_user_id: db.last_user_id + 1,
        ..db
    }
}

/// Why a submission to the library is turned down, if it is.
pub open spec fn upsert_rejection(db: DatabaseView, p: UpsertView) -> Option<LibraryError> {
    if !has_user_id(db.users, p.user_id) {
        Some(LibraryError::UnknownUser)
    } else if !has_entry(db.entries, p) && db.last_entry_id >= i64::MAX {
        Some(LibraryError::StoreFull)
    } else {
        None
    }
}

/// The database after a submission to the library: unchanged where it is
/// turned down; the entry about the same item overwritten in place where
/// there is one; else a new entry at the end, under the next identifier.
pub open spec fn upserted(db: DatabaseView, p: UpsertView) -> DatabaseView {
    if upsert_rejection(db, p) is Some {
        db
    } else if has_entry(db.entries, p) {
        let k = entry_index(db.entries, p);
        DatabaseView { entries: db.entries.update(k, overwritten(db.entries[k], p)), ..db }
    } else {
        DatabaseView {
            entries: db.entries.push(created(db.last_entry_id + 1, p)),
            last_entry_id: db.last_entry_id + 1,
            ..db
        }
    }
}

/// What a submission to the library is answered with.
pub open spec fn upsert_answer(db: DatabaseView, p: UpsertView) -> Result<Upserted, LibraryError> {
    match upsert_rejection(db, p) {
        Some(e) => Err(e),
        None => if has_entry(db.entries, p) {
            Ok(Upserted::Replaced(db.entries[entry_index(db.entries, p)].id as i64))
        } else {
            Ok(Upserted::Inserted((db.last_entry_id + 1) as i64))
        },
    }
}

/// Whether rows read from storage can stand in a database: whether they
/// meet its invariant under some pair of counters.
pub open spec fn loadable(users: Seq<UserView>, entries: Seq<EntryView>) -> bool {
    well_formed(
        DatabaseView { users, entries, last_user_id: i64::MAX as int, last_entry_id: i64::MAX as int },
    )
}

/// The largest identifier among users; 0 where there are none.
pub open spec fn largest_user_id(users: Seq<UserView>) -> int
    decreases users.len(),
{
    if users.len() == 0 {
        0
    } else if users.last().id > largest_user_id(users.drop_last()) {
        users.last().id
    } else {
        largest_user_id(users.drop_last())
    }
}

/// The largest identifier among entries; 0 where there are none.
pub open spec fn largest_entry_id(entries: Seq<EntryView>) -> int
    decreases entries.len(),
{
    if entries.len() == 0 {
        0
    } else if entries.last().id > largest_entry_id(entries.drop_last()) {
        entries.last().id
    } else {
        largest_entry_id(entries.drop_last())
    }
}

proof fn lemma_largest_user_id_bounds(users: Seq<UserView>)
    ensures
        0 <= largest_user_id(users),
        forall|i: int| 0 <= i < users.len() ==> (#[trigger] users[i]).id <= largest_user_id(users),
    decreases users.len(),
{
    if users.len() > 0 {
        let rest = users.drop_last();
        lemma_largest_user_id_bounds(rest);
        assert forall|i: int| 0 <= i < users.len() implies (#[trigger] users[i]).id
            <= largest_user_id(users) by {
            if i < rest.len() {
                assert(rest[i] == users[i]);
            }
        }
    }
}

proof fn lemma_largest_entry_id_bounds(entries: Seq<EntryView>)
    ensures
        0 <= largest_entry_id(entries),
        forall|i: int|
            0 <= i < entries.len() ==> (#[trigger] entries[i]).id <= largest_entry_id(entries),
    decreases entries.len(),
{
    if entries.len() > 0 {
        let rest = entries.drop_last();
        lemma_largest_entry_id_bounds(rest);
        assert forall|i: int| 0 <= i < entries.len() implies (#[trigger] entries[i]).id
            <= largest_entry_id(entries) by {
            if i < rest.len() {
                assert(rest[i] == entries[i]);
            }
        }
    }
}

/// The database that rows read from storage make up: the rows as they
/// came, each counter at the largest identifier of its table.
pub open spec fn loaded(users: Seq<UserView>, entries: Seq<EntryView>) -> DatabaseView {
    DatabaseView {
        users,
        entries,
        last_user_id: largest_user_id(users),
        last_entry_id: largest_entry_id(entries),
    }
}

/// Whether the first `upto` users have valid identifiers, and no two of
/// them the same identifier or name.
spec fn users_sound(users: Seq<UserView>, upto: int) -> bool {
    &&& forall|i: int|
        0 <= i < upto ==> 1 <= (#[trigger] users[i]).id <= i64::MAX
    &&& forall|i: int, j: int|
        0 <= i < j < upto ==> (#[trigger] users[i]).id != (#[trigger] users[j]).id
            && users[i].username != users[j].username
}

/// Whether the first `upto` entries have valid identifiers and registered
/// owners, and no two of them the same identifier or the same item of the
/// same user.
spec fn entries_sound(users: Seq<UserView>, entries: Seq<EntryView>, upto: int) -> bool {
    &&& forall|k: int|
        0 <= k < upto ==> 1 <= (#[trigger] entries[k]).id <= i64::MAX && has_user_id(
            users,
            entries[k].user_id,
        )
    &&& forall|k: int, l: int|
        0 <= k < l < upto ==> (#[trigger] entries[k]).id != (#[trigger] entries[l]).id
            && !same_triple(entries[k], entries[l])
}

proof fn lemma_loadable_is_sound(users: Seq<UserView>, entries: Seq<EntryView>)
    ensures
        loadable(users, entries) == (users_sound(users, users.len() as int) && entries_sound(
            users,
            entries,
            entries.len() as int,
        )),
{
    let db = DatabaseView {
        users,
        entries,
        last_user_id: i64::MAX as int,
        last_entry_id: i64::MAX as int,
    };
    if well_formed(db) {
        assert forall|i: int| 0 <= i < users.len() implies 1 <= (#[trigger] users[i]).id
            <= i64::MAX by {
            assert(db.users[i] == users[i]);
        }
        assert forall|i: int, j: int| 0 <= i < j < users.len() implies (#[trigger] users[i]).id
            != (#[trigger] users[j]).id && users[i].username != users[j].username by {
            assert(db.users[i] == users[i]);
        }
    }
}

/// Registering a user keeps the database well formed.
pub proof fn lemma_with_user_well_formed(
    db: DatabaseView,
    username: Seq<char>,
    password: Seq<char>,
    password_hash: Seq<char>,
)
    requires
        well_formed(db),
        registration_rejection(db, username, password) is None,
    ensures
        well_formed(with_user(db, trimmed(username), password_hash)),
{
    let name = trimmed(username);
    let after = with_user(db, name, password_hash);
    assert forall|k: int| 0 <= k < after.entries.len() implies 1 <= (
    #[trigger] after.entries[k]).id <= after.last_entry_id && has_user_id(
        after.users,
        after.entries[k].user_id,
    ) by {
        let owner = db.entries[k].user_id;
        let i = choose|i: int| 0 <= i < db.users.len() && (#[trigger] db.users[i]).id == owner;
        assert(after.users[i] == db.users[i]);
    }
}

/// The entry that a submission is about is the only one about that item.
pub proof fn lemma_entry_index_unique(db: DatabaseView, p: UpsertView, k: int)
    requires
        well_formed(db),
        0 <= k < db.entries.len(),
        same_key(db.entries[k], p),
    ensures
        has_entry(db.entries, p),
        entry_index(db.entries, p) == k,
{
}

impl Database {
    /// Whether the invariant of the database holds.
    pub open spec fn wf(&self) -> bool {
        well_formed(self@)
    }

    /// The database of a fresh installation: no users, no entries.
    pub fn new() -> (db: Database)
        ensures
            db.wf(),
            db@ == empty_database(),
    {
        let db = Database {
            users: Vec::new(),
            entries: Vec::new(),
            last_user_id: 0,
            last_entry_id: 0,
        };
        assert(db@.users =~= Seq::empty());
        assert(db@.entries =~= Seq::empty());
        db
    }

    /// Whether the rows of the table of users can stand in a database.
    fn users_are_sound(users: &Vec<UserRecord>) -> (ok: bool)
        ensures
            ok == users_sound(users@.map_values(|u: UserRecord| u@), users@.len() as int),
    {
        let ghost rows = users@.map_values(|u: UserRecord| u@);
        let mut i: usize = 0;
        while i < users.len()
            invariant
                i <= users.len(),
                rows == users@.map_values(|u: UserRecord| u@),
                users_sound(rows, i as int),
            decreases users.len() - i,
        {
            if users[i].id < 1 {
                assert(!(1 <= rows[i as int].id));
                return false;
            }
            let mut j: usize = 0;
            while j < i
                invariant
                    j <= i < users.len(),
                    rows == users@.map_values(|u: UserRecord| u@),
                    forall|a: int|
                        0 <= a < j ==> (#[trigger] rows[a]).id != rows[i as int].id
                            && rows[a].username != rows[i as int].username,
                decreases i - j,
            {
                if users[j].id == users[i].id || text_eq(
                    users[j].username.as_str(),
                    users[i].username.as_str(),
                ) {
                    assert(!(rows[j as int].id != rows[i as int].id && rows[j as int].username
                        != rows[i as int].username));
                    return false;
                }
                j = j + 1;
            }
            i = i + 1;
        }
        true
    }

    /// Whether the rows of the table of entries can stand in a database
    /// beside the given users.
    fn entries_are_sound(&self, entries: &Vec<LibraryEntry>) -> (ok: bool)
        ensures
            ok == entries_sound(
                self@.users,
                entries@.map_values(|e: LibraryEntry| e@),
                entries@.len() as int,
            ),
    {
        let ghost rows = entries@.map_values(|e: LibraryEntry| e@);
        let mut k: usize = 0;
        while k < entries.len()
            invariant
                k <= entries.len(),
                rows == entries@.map_values(|e: LibraryEntry| e@),
                entries_sound(self@.users, rows, k as int),
            decreases entries.len() - k,
        {
            if entries[k].id < 1 || !self.has_user(entries[k].user_id) {
                return false;
            }
            let mut l: usize = 0;
            while l < k
                invariant
                    l <= k < entries.len(),
                    rows == entries@.map_values(|e: LibraryEntry| e@),
                    forall|a: int|
                        0 <= a < l ==> (#[trigger] rows[a]).id != rows[k as int].id && !same_triple(
                            rows[a],
                            rows[k as int],
                        ),
                decreases k - l,
            {
                let same = entries[l].user_id == entries[k].user_id && entries[l].item_id
                    == entries[k].item_id && entries[l].item_type == entries[k].item_type;
                if entries[l].id == entries[k].id || same {
                    assert(!(rows[l as int].id != rows[k as int].id && !same_triple(
                        rows[l as int],
                        rows[k as int],
                    )));
                    return false;
                }
                l = l + 1;
            }
            k = k + 1;
        }
        true
    }

    /// Makes a database of rows read from storage, in the order in which
    /// they came. Rows that break the invariant of the database give
    /// `None`; for any others each counter stands at the largest identifier
    /// of its table. Names are taken as they were stored, whatever their
    /// length: only registration judges a name.
    pub fn load(users: Vec<UserRecord>, entries: Vec<LibraryEntry>) -> (r: Option<Database>)
        ensures
            match r {
                Some(db) => {
                    &&& db.wf()
                    &&& db@ == loaded(
                        users@.map_values(|u: UserRecord| u@),
                        entries@.map_values(|e: LibraryEntry| e@),
                    )
                },
                None => !loadable(
                    users@.map_values(|u: UserRecord| u@),
                    entries@.map_values(|e: LibraryEntry| e@),
                ),
            },
    {
        let ghost user_rows = users@.map_values(|u: UserRecord| u@);
        let ghost entry_rows = entries@.map_values(|e: LibraryEntry| e@);
        proof {
            lemma_loadable_is_sound(user_rows, entry_rows);
        }
        if !Database::users_are_sound(&users) {
            return None;
        }
        let mut last_user_id: i64 = 0;
        let mut i: usize = 0;
        while i < users.len()
            invariant
                i <= users.len(),
                user_rows == users@.map_values(|u: UserRecord| u@),
                last_user_id == largest_user_id(user_rows.take(i as int)),
            decreases users.len() - i,
        {
            assert(user_rows.take(i + 1).drop_last() =~= user_rows.take(i as int));
            if users[i].id > last_user_id {
                last_user_id = users[i].id;
            }
            i = i + 1;
        }
        assert(user_rows.take(i as int) =~= user_rows);
        let mut db = Database { users, entries: Vec::new(), last_user_id, last_entry_id: 0 };
        if !db.entries_are_sound(&entries) {
            return None;
        }
        let mut last_entry_id: i64 = 0;
        let mut k: usize = 0;
        while k < entries.len()
            invariant
                k <= entries.len(),
                entry_rows == entries@.map_values(|e: LibraryEntry| e@),
                last_entry_id == largest_entry_id(entry_rows.take(k as int)),
            decreases entries.len() - k,
        {
            assert(entry_rows.take(k + 1).drop_last() =~= entry_rows.take(k as int));
            if entries[k].id > last_entry_id {
                last_entry_id = entries[k].id;
            }
            k = k + 1;
        }
        assert(entry_rows.take(k as int) =~= entry_rows);
        proof {
            lemma_largest_user_id_bounds(user_rows);
            lemma_largest_entry_id_bounds(entry_rows);
        }
        db.entries = entries;
        db.last_entry_id = last_entry_id;
        Some(db)
    }

    /// The number of registered users.
    pub fn user_count(&self) -> (n: usize)
        ensures
            n == self@.users.len(),
    {
        self.users.len()
    }

    /// The number of library entries, over all users.
    pub fn entry_count(&self) -> (n: usize)
        ensures
            n == self@.entries.len(),
    {
        self.entries.len()
    }

    /// The registered users, in storage order.
    pub fn users(&self) -> (rows: &Vec<UserRecord>)
        ensures
            rows@.map_values(|u: UserRecord| u@) == self@.users,
    {
        &self.users
    }

    /// The library entries of all users, in storage order.
    pub fn entries(&self) -> (rows: &Vec<LibraryEntry>)
        ensures
            rows@.map_values(|e: LibraryEntry| e@) == self@.entries,
    {
        &self.entries
    }

    /// The user with this identifier, if one is registered.
    pub fn user_with_id(&self, user_id: i64) -> (r: Option<&UserRecord>)
        ensures
            match r {
                Some(user) => user.id == user_id && self@.users.contains(user@),
                None => !has_user_id(self@.users, user_id as int),
            },
    {
        let mut i: usize = 0;
        while i < self.users.len()
            invariant
                i <= self.users.len(),
                forall|k: int| 0 <= k < i ==> (#[trigger] self@.users[k]).id != user_id,
            decreases self.users.len() - i,
        {
            if self.users[i].id == user_id {
                assert(self@.users[i as int] == self.users[i as int]@);
                return Some(&self.users[i]);
            }
            i = i + 1;
        }
        None
    }

    /// The library entry with this identifier, if there is one.
    pub fn entry_with_id(&self, id: i64) -> (r: Option<&LibraryEntry>)
        ensures
            match r {
                Some(entry) => entry.id == id && self@.entries.contains(entry@),
                None => forall|k: int|
                    0 <= k < self@.entries.len() ==> (#[trigger] self@.entries[k]).id != id,
            },
    {
        let mut k: usize = 0;
        while k < self.entries.len()
            invariant
                k <= self.entries.len(),
                forall|m: int| 0 <= m < k ==> (#[trigger] self@.entries[m]).id != id,
            decreases self.entries.len() - k,
        {
            if self.entries[k].id == id {
                assert(self@.entries[k as int] == self.entries[k as int]@);
                return Some(&self.entries[k]);
            }
            k = k + 1;
        }
        None
    }

    /// Where the user of this name stands in the table, if there is one.
    fn position_of_user(&self, name: &str) -> (r: Option<usize>)
        ensures
            match r {
                Some(i) => i < self@.users.len() && self@.users[i as int].username == name@,
                None => !has_username(self@.users, name@),
            },
    {
        let mut i: usize = 0;
        while i < self.users.len()
            invariant
                i <= self.users.len(),
                forall|k: int| 0 <= k < i ==> (#[trigger] self@.users[k]).username != name@,
            decreases self.users.len() - i,
        {
            if text_eq(self.users[i].username.as_str(), name) {
                return Some(i);
            }
            i = i + 1;
        }
        None
    }

    /// Whether a user with this identifier is registered.
    pub fn has_user(&self, user_id: i64) -> (r: bool)
        ensures
            r == has_user_id(self@.users, user_id as int),
    {
        let mut i: usize = 0;
        while i < self.users.len()
            invariant
                i <= self.users.len(),
                forall|k: int| 0 <= k < i ==> (#[trigger] self@.users[k]).id != user_id,
            decreases self.users.len() - i,
        {
            if self.users[i].id == user_id {
                assert(self@.users[i as int].id == user_id);
                return true;
            }
            i = i + 1;
        }
        false
    }

    /// Why the database turns this registration down, if it does.
    pub fn registration_rejection(&self, payload: &RegisterPayload) -> (r: Option<CredentialError>)
        ensures
            r == registration_rejection(self@, payload.username@, payload.password@),
    {
        match check_registration(payload.username.as_str(), payload.password.as_str()) {
            Err(e) => Some(e),
            Ok(name) => {
                if self.position_of_user(name).is_some() {
                    Some(CredentialError::UsernameTaken)
                } else if self.last_user_id == i64::MAX {
                    Some(CredentialError::StoreFull)
                } else {
                    None
                }
            },
        }
    }

    /// Registers a user whose password has been hashed already: turns the
    /// registration down where `registration_rejection` says so, and else
    /// appends the user, under the next identifier, with the trimmed name
    /// and with `password_hash` as it was handed in.
    pub fn register_with_hash(&mut self, payload: &RegisterPayload, password_hash: String) -> (r:
        Result<AuthResponse, CredentialError>)
        requires
            old(self).wf(),
        ensures
            final(self).wf(),
            match registration_rejection(old(self)@, payload.username@, payload.password@) {
                Some(e) => r == Err::<AuthResponse, CredentialError>(e) && final(self)@ == old(
                    self,
                )@,
                None => {
                    &&& r is Ok
                    &&& final(self)@ == with_user(
                        old(self)@,
                        trimmed(payload.username@),
                        password_hash@,
                    )
                    &&& answer_view(r) == Ok::<IdentityView, CredentialError>(
                        identity_of(
                            next_user(old(self)@, trimmed(payload.username@), password_hash@),
                        ),
                    )
                },
            },
    {
        match check_registration(payload.username.as_str(), payload.password.as_str()) {
            Err(e) => Err(e),
            Ok(name) => {
                if self.position_of_user(name).is_some() {
                    return Err(CredentialError::UsernameTaken);
                }
                if self.last_user_id == i64::MAX {
                    return Err(CredentialError::StoreFull);
                }
                let id: i64 = self.last_user_id + 1;
                let record = UserRecord { id, username: name.to_owned(), password_hash };
                let answer = AuthResponse { user_id: id, username: name.to_owned() };
                proof {
                    lemma_with_user_well_formed(
                        self@,
                        payload.username@,
                        payload.password@,
                        password_hash@,
                    );
                }
                self.users.push(record);
                self.last_user_id = id;
                assert(self@.users =~= old(self)@.users.push(
                    next_user(old(self)@, trimmed(payload.username@), password_hash@),
                ));
                Ok(answer)
            },
        }
    }

    /// Registers a user: hashes the password under a fresh salt and appends
    /// the user under the next identifier, unless the registration is
    /// malformed, the trimmed name is taken, or no identifier is left. A
    /// registration that is not turned down succeeds unless hashing fails.
    pub fn register_user(&mut self, payload: &RegisterPayload) -> (r: Result<
        AuthResponse,
        CredentialError,
    >)
        requires
            old(self).wf(),
        ensures
            final(self).wf(),
            match registration_rejection(old(self)@, payload.username@, payload.password@) {
                Some(e) => r == Err::<AuthResponse, CredentialError>(e) && final(self)@ == old(
                    self,
                )@,
                None => match r {
                    Ok(identity) => registered(
                        old(self)@,
                        final(self)@,
                        payload.username@,
                        payload.password@,
                        identity@,
                    ),
                    Err(e) => e == CredentialError::HashingFailed && final(self)@ == old(self)@,
                },
            },
    {
        if let Some(e) = self.registration_rejection(payload) {
            return Err(e);
        }
        match hash_password(payload.password.as_str()) {
            Err(e) => Err(e),
            Ok(password_hash) => self.register_with_hash(payload, password_hash),
        }
    }

    /// Finds the user that a login names: the flaw of a malformed login, the
    /// one answer for every failed login where nobody has the trimmed name,
    /// and else the stored user.
    pub fn find_login(&self, payload: &LoginPayload) -> (r: Result<&UserRecord, CredentialError>)
        requires
            self.wf(),
        ensures
            match login_flaw(payload.username@, payload.password@) {
                Some(e) => r == Err::<&UserRecord, CredentialError>(e),
                None => if has_username(self@.users, trimmed(payload.username@)) {
                    r matches Ok(user) && user@ == user_named(
                        self@.users,
                        trimmed(payload.username@),
                    )
                } else {
                    r == Err::<&UserRecord, CredentialError>(CredentialError::InvalidCredentials)
                },
            },
    {
        match check_login(payload.username.as_str(), payload.password.as_str()) {
            Err(e) => Err(e),
            Ok(name) => match self.position_of_user(name) {
                None => Err(CredentialError::InvalidCredentials),
                Some(i) => {
                    Ok(&self.users[i])
                },
            },
        }
    }

    /// Logs a user in: the identity of the user with the trimmed name where
    /// the password matches the stored hash; the flaw of a malformed login;
    /// and one and the same answer where nobody has the name and where the
    /// password does not match.
    pub fn login_user(&self, payload: &LoginPayload) -> (r: Result<AuthResponse, CredentialError>)
        requires
            self.wf(),
        ensures
            answer_view(r) == login_outcome(self@.users, payload.username@, payload.password@),
    {
        match self.find_login(payload) {
            Err(e) => Err(e),
            Ok(user) => {
                let matched = verify_password(
                    payload.password.as_str(),
                    user.password_hash.as_str(),
                );
                conclude_login(user, matched)
            },
        }
    }

    /// Where the entry that a submission is about stands in the table, if
    /// there is one.
    fn position_of_entry(&self, payload: &UpsertLibraryPayload) -> (r: Option<usize>)
        ensures
            match r {
                Some(k) => k < self@.entries.len() && same_key(self@.entries[k as int], payload@),
                None => !has_entry(self@.entries, payload@),
            },
    {
        let mut k: usize = 0;
        while k < self.entries.len()
            invariant
                k <= self.entries.len(),
                forall|m: int| 0 <= m < k ==> !same_key(#[trigger] self@.entries[m], payload@),
            decreases self.entries.len() - k,
        {
            if payload.is_about(&self.entries[k]) {
                return Some(k);
            }
            k = k + 1;
        }
        None
    }

    /// Inserts a library entry, or overwrites title, poster, status and
    /// rating of the entry that the same user has for the same item of the
    /// same type; that entry keeps its identifier and its place. Status and
    /// item type are taken as they come.
    pub fn upsert_library(&mut self, payload: UpsertLibraryPayload) -> (r: Result<
        Upserted,
        LibraryError,
    >)
        requires
            old(self).wf(),
        ensures
            final(self).wf(),
            final(self)@ == upserted(old(self)@, payload@),
            r == upsert_answer(old(self)@, payload@),
    {
        if !self.has_user(payload.user_id) {
            return Err(LibraryError::UnknownUser);
        }
        match self.position_of_entry(&payload) {
            Some(k) => {
                let id = self.entries[k].id;
                let user_id = self.entries[k].user_id;
                let entry = LibraryEntry {
                    id,
                    user_id,
                    item_id: payload.item_id,
                    item_type: payload.item_type,
                    title: payload.title,
                    poster_url: payload.poster_url,
                    status: payload.status,
                    rating: payload.rating,
                };
                self.entries.set(k, entry);
                assert(self@.entries =~= old(self)@.entries.update(
                    k as int,
                    overwritten(old(self)@.entries[k as int], payload@),
                ));
                Ok(Upserted::Replaced(id))
            },
            None => {
                if self.last_entry_id == i64::MAX {
                    return Err(LibraryError::StoreFull);
                }
                let id: i64 = self.last_entry_id + 1;
                let entry = LibraryEntry {
                    id,
                    user_id: payload.user_id,
                    item_id: payload.item_id,
                    item_type: payload.item_type,
                    title: payload.title,
                    poster_url: payload.poster_url,
                    status: payload.status,
                    rating: payload.rating,
                };
                self.entries.push(entry);
                self.last_entry_id = id;
                assert(self@.entries =~= old(self)@.entries.push(
                    created(old(self)@.last_entry_id + 1, payload@),
                ));
                Ok(Upserted::Inserted(id))
            },
        }
    }

    /// The entries of one user, narrowed by each filter that is present, in
    /// storage order.
    pub fn get_library(&self, payload: &QueryLibraryPayload) -> (items: Vec<LibraryItem>)
        ensures
            items_view(items@) == selection(self@.entries, payload@),
            items@.len() == selection(self@.entries, payload@).len(),
    {
        select_items(&self.entries, payload)
    }
}

/// What a successful registration leaves behind: one more user at the end
/// of the table, under the next identifier and the trimmed name, with a
/// hash that matches the password; and that user's identity as the answer.
pub open spec fn registered(
    before: DatabaseView,
    after: DatabaseView,
    username: Seq<char>,
    password: Seq<char>,
    identity: IdentityView,
) -> bool {
    &&& registration_rejection(before, username, password) is None
    &&& after.users.len() == before.users.len() + 1
    &&& after == with_user(before, trimmed(username), after.users.last().password_hash)
    &&& password_matches(password, after.users.last().password_hash)
    &&& identity == identity_of(after.users.last())
}

} // verus!
