//! The rules of the library store: what an entry is, which entry a
//! submission overwrites, and which entries a query selects.

use vstd::prelude::*;
use vstd::string::*;

use crate::number::RealBits;
use crate::text::clone_text;
use crate::text::text_view;

verus! {

/// Why the library store turned a submission down.
#[derive(Clone, Copy, PartialEq, Eq, Structural, Debug)]
pub enum LibraryError {
    /// The entry names a user that is not registered.
    UnknownUser,
    /// No entry identifier is left to give out.
    StoreFull,
}

impl LibraryError {
    /// The sentence shown to the user for this error.
    pub open spec fn message_of(self) -> Seq<char> {
        match self {
            LibraryError::UnknownUser => "FOREIGN KEY constraint failed"@,
            LibraryError::StoreFull => "database or disk is full"@,
        }
    }

    /// The sentence shown to the user for this error.
    pub fn message(&self) -> (m: String)
        ensures
            m@ == self.message_of(),
    {
        match self {
            LibraryError::UnknownUser => String::from_str("FOREIGN KEY constraint failed"),
            LibraryError::StoreFull => String::from_str("database or disk is full"),
        }
    }
}

/// One tracked title of one user, as the store keeps it.
#[derive(Clone, Debug, PartialEq)]
pub struct LibraryEntry {
    pub id: i64,
    pub user_id: i64,
    pub item_id: String,
    pub item_type: String,
    pub title: String,
    pub poster_url: Option<String>,
    pub status: String,
    pub rating: Option<RealBits>,
}

/// A stored entry as the contracts see it.
pub struct EntryView {
    pub id: int,
    pub user_id: int,
    pub item_id: Seq<char>,
    pub item_type: Seq<char>,
    pub title: Seq<char>,
    pub poster_url: Option<Seq<char>>,
    pub status: Seq<char>,
    pub rating: Option<RealBits>,
}

impl View for LibraryEntry {
    type V = EntryView;

    open spec fn view(&self) -> EntryView {
        EntryView {
            id: self.id as int,
            user_id: self.user_id as int,
            item_id: self.item_id@,
            item_type: self.item_type@,
            title: self.title@,
            poster_url: text_view(self.poster_url),
            status: self.status@,
            rating: self.rating,
        }
    }
}

/// An entry as a query hands it out: the stored entry without its owner.
#[derive(Clone, Debug, PartialEq)]
pub struct LibraryItem {
    pub id: i64,
    pub item_id: String,
    pub item_type: String,
    pub title: String,
    pub poster_url: Option<String>,
    pub status: String,
    pub rating: Option<RealBits>,
}

/// A handed-out entry as the contracts see it.
pub struct ItemView {
    pub id: int,
    pub item_id: Seq<char>,
    pub item_type: Seq<char>,
    pub title: Seq<char>,
    pub poster_url: Option<Seq<char>>,
    pub status: Seq<char>,
    pub rating: Option<RealBits>,
}

impl View for LibraryItem {
    type V = ItemView;

    open spec fn view(&self) -> ItemView {
        ItemView {
            id: self.id as int,
            item_id: self.item_id@,
            item_type: self.item_type@,
            title: self.title@,
            poster_url: text_view(self.poster_url),
            status: self.status@,
            rating: self.rating,
        }
    }
}

/// A submission to the library: the entry to insert, or to overwrite where
/// the user tracks the same item of the same type already.
#[derive(Clone, Debug, PartialEq)]
pub struct UpsertLibraryPayload {
    pub user_id: i64,
    pub item_id: String,
    pub item_type: String,
    pub title: String,
    pub poster_url: Option<String>,
    pub status: String,
    pub rating: Option<RealBits>,
}

/// A submission as the contracts see it.
pub struct UpsertView {
    pub user_id: int,
    pub item_id: Seq<char>,
    pub item_type: Seq<char>,
    pub title: Seq<char>,
    pub poster_url: Option<Seq<char>>,
    pub status: Seq<char>,
    pub rating: Option<RealBits>,
}

impl View for UpsertLibraryPayload {
    type V = UpsertView;

    open spec fn view(&self) -> UpsertView {
        UpsertView {
            user_id: self.user_id as int,
            item_id: self.item_id@,
            item_type: self.item_type@,
            title: self.title@,
            poster_url: text_view(self.poster_url),
            status: self.status@,
            rating: self.rating,
        }
    }
}

/// A query of one user's library, with two optional exact filters.
#[derive(Clone, Debug, PartialEq)]
pub struct QueryLibraryPayload {
    pub user_id: i64,
    pub item_type: Option<String>,
    pub status: Option<String>,
}

/// A query as the contracts see it.
pub struct QueryView {
    pub user_id: int,
    pub item_type: Option<Seq<char>>,
    pub status: Option<Seq<char>>,
}

impl View for QueryLibraryPayload {
    type V = QueryView;

    open spec fn view(&self) -> QueryView {
        QueryView {
            user_id: self.user_id as int,
            item_type: text_view(self.item_type),
            status: text_view(self.status),
        }
    }
}

/// What a submission did: the identifier of the entry it created, or of the
/// entry it overwrote.
#[derive(Clone, Copy, PartialEq, Eq, Structural, Debug)]
pub enum Upserted {
    Inserted(i64),
    Replaced(i64),
}

/// Whether `entry` is the one a submission is about: same user, same item,
/// same type.
pub open spec fn same_key(entry: EntryView, p: UpsertView) -> bool {
    entry.user_id == p.user_id && entry.item_id == p.item_id && entry.item_type == p.item_type
}

/// Whether two entries are about the same item of the same user.
pub open spec fn same_triple(a: EntryView, b: EntryView) -> bool {
    a.user_id == b.user_id && a.item_id == b.item_id && a.item_type == b.item_type
}

/// Whether the library holds the entry that a submission is about.
pub open spec fn has_entry(entries: Seq<EntryView>, p: UpsertView) -> bool {
    exists|k: int| 0 <= k < entries.len() && same_key(#[trigger] entries[k], p)
}

/// Where the library holds the entry that a submission is about.
pub open spec fn entry_index(entries: Seq<EntryView>, p: UpsertView) -> int {
    choose|k: int| 0 <= k < entries.len() && same_key(#[trigger] entries[k], p)
}

/// `entry` after a submission about it: title, poster, status and rating are
/// the submitted ones, the row identifier and the key stay.
pub open spec fn overwritten(entry: EntryView, p: UpsertView) -> EntryView {
    EntryView { title: p.title, poster_url: p.poster_url, status: p.status, rating: p.rating, ..entry }
}

/// The entry that a submission creates under a fresh identifier.
pub open spec fn created(id: int, p: UpsertView) -> EntryView {
    EntryView {
        id,
        user_id: p.user_id,
        item_id: p.item_id,
        item_type: p.item_type,
        title: p.title,
        poster_url: p.poster_url,
        status: p.status,
        rating: p.rating,
    }
}

/// Whether a query selects an entry: it is the user's, and it meets each
/// filter that is present.
pub open spec fn selects(q: QueryView, entry: EntryView) -> bool {
    &&& entry.user_id == q.user_id
    &&& (q.item_type matches Some(t) ==> entry.item_type == t)
    &&& (q.status matches Some(s) ==> entry.status == s)
}

/// An entry as a query hands it out.
pub open spec fn item_of(entry: EntryView) -> ItemView {
    ItemView {
        id: entry.id,
        item_id: entry.item_id,
        item_type: entry.item_type,
        title: entry.title,
        poster_url: entry.poster_url,
        status: entry.status,
        rating: entry.rating,
    }
}

/// What a query returns: the selected entries, in the order of the store.
pub open spec fn selection(entries: Seq<EntryView>, q: QueryView) -> Seq<ItemView>
    decreases entries.len(),
{
    if entries.len() == 0 {
        Seq::empty()
    } else if selects(q, entries.last()) {
        selection(entries.drop_last(), q).push(item_of(entries.last()))
    } else {
        selection(entries.drop_last(), q)
    }
}

/// The characters of each item of a list of items.
pub open spec fn items_view(items: Seq<LibraryItem>) -> Seq<ItemView> {
    items.map_values(|item: LibraryItem| item@)
}

impl LibraryEntry {
    /// This entry as a query hands it out.
    pub fn to_item(&self) -> (item: LibraryItem)
        ensures
            item@ == item_of(self@),
    {
        LibraryItem {
            id: self.id,
            item_id: self.item_id.clone(),
            item_type: self.item_type.clone(),
            title: self.title.clone(),
            poster_url: clone_text(&self.poster_url),
            status: self.status.clone(),
            rating: self.rating,
        }
    }
}

impl QueryLibraryPayload {
    /// Whether this query selects `entry`.
    pub fn selects_entry(&self, entry: &LibraryEntry) -> (r: bool)
        ensures
            r == selects(self@, entry@),
    {
        if entry.user_id != self.user_id {
            return false;
        }
        let type_ok = match &self.item_type {
            Some(t) => entry.item_type == *t,
            None => true,
        };
        let status_ok = match &self.status {
            Some(s) => entry.status == *s,
            None => true,
        };
        type_ok && status_ok
    }
}

/// The entries of a table as the contracts see them.
pub open spec fn entries_view(entries: Seq<LibraryEntry>) -> Seq<EntryView> {
    entries.map_values(|e: LibraryEntry| e@)
}

/// Selects from the rows of the table of entries: the entries of one user,
/// narrowed by each filter that is present, in the order of the rows.
/// Nothing is asked of the rows.
pub fn select_items(entries: &Vec<LibraryEntry>, query: &QueryLibraryPayload) -> (items: Vec<
    LibraryItem,
>)
    ensures
        items_view(items@) == selection(entries_view(entries@), query@),
        items@.len() == selection(entries_view(entries@), query@).len(),
{
    let mut items: Vec<LibraryItem> = Vec::new();
    let ghost rows = entries_view(entries@);
    let mut k: usize = 0;
    while k < entries.len()
        invariant
            k <= entries.len(),
            rows == entries_view(entries@),
            items_view(items@) == selection(rows.take(k as int), query@),
        decreases entries.len() - k,
    {
        assert(rows.take(k + 1).drop_last() =~= rows.take(k as int));
        if query.selects_entry(&entries[k]) {
            let item = entries[k].to_item();
            items.push(item);
        }
        k = k + 1;
    }
    assert(rows.take(k as int) =~= rows);
    items
}

impl UpsertLibraryPayload {
    /// Whether `entry` is the one this submission is about.
    pub fn is_about(&self, entry: &LibraryEntry) -> (r: bool)
        ensures
            r == same_key(entry@, self@),
    {
        entry.user_id == self.user_id && entry.item_id == self.item_id && entry.item_type
            == self.item_type
    }
}

} // verus!
