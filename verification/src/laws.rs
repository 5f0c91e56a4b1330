//! What holds of the stores over every database and every input, proved
//! from the rules that the operations' contracts are stated in.

use vstd::prelude::*;

use crate::anime::anime_detail;
use crate::anime::anime_media_of;
use crate::anime::anime_summary;
use crate::anime::AnimeMediaView;
use crate::credentials::has_username;
use crate::credentials::identity_of;
use crate::credentials::login_flaw;
use crate::credentials::login_outcome;
use crate::credentials::password_matches;
use crate::credentials::password_rejection;
use crate::credentials::user_named;
use crate::credentials::CredentialError;
use crate::credentials::CredentialErrorKind;
use crate::credentials::IdentityView;
use crate::credentials::UserView;
use crate::general::general_detail;
use crate::general::general_media_of;
use crate::general::general_summary;
use crate::general::GeneralMediaView;
use crate::json::Json;
use crate::json::JsonNumber;
use crate::library::entry_index;
use crate::library::has_entry;
use crate::library::item_of;
use crate::library::same_key;
use crate::library::selection;
use crate::library::selects;
use crate::library::EntryView;
use crate::library::ItemView;
use crate::library::QueryView;
use crate::library::UpsertView;
use crate::store::lemma_entry_index_unique;
use crate::store::registered;
use crate::store::registration_rejection;
use crate::store::upsert_rejection;
use crate::store::upserted;
use crate::store::valid_username;
use crate::store::well_formed;
use crate::store::DatabaseView;
use crate::text::decimal;
use crate::text::lemma_trimmed_idempotent;
use crate::text::trimmed;

verus! {

/// A name that, once trimmed, has fewer than 3 or more than 50 characters
/// is turned down as malformed, whatever the password and whatever the
/// database holds. `register_user` leaves the database as it was on every
/// registration that is turned down.
pub proof fn law_bad_username_is_rejected(
    db: DatabaseView,
    username: Seq<char>,
    password: Seq<char>,
)
    requires
        trimmed(username).len() < 3 || trimmed(username).len() > 50,
    ensures
        registration_rejection(db, username, password) matches Some(e) && e.kind_of()
            == CredentialErrorKind::Validation,
{
}

/// Once a name is registered, registering a name that trims to the same
/// characters is turned down as a conflict, provided the second
/// registration is well formed otherwise. `register_user` leaves the
/// database, and so the number of users, as it was on every registration
/// that is turned down.
pub proof fn law_second_registration_conflicts(
    before: DatabaseView,
    after: DatabaseView,
    username: Seq<char>,
    password: Seq<char>,
    identity: IdentityView,
    again: Seq<char>,
    other_password: Seq<char>,
)
    requires
        well_formed(before),
        registered(before, after, username, password, identity),
        trimmed(again) == trimmed(username),
        password_rejection(other_password) is None,
    ensures
        registration_rejection(after, again, other_password) == Some(
            CredentialError::UsernameTaken,
        ),
        CredentialError::UsernameTaken.kind_of() == CredentialErrorKind::Conflict,
{
}

/// After a registration, a login with the same name and password succeeds
/// and returns the identity that the registration returned.
pub proof fn law_login_after_registration(
    before: DatabaseView,
    after: DatabaseView,
    username: Seq<char>,
    password: Seq<char>,
    identity: IdentityView,
)
    requires
        well_formed(before),
        registered(before, after, username, password, identity),
    ensures
        login_outcome(after.users, username, password) == Ok::<IdentityView, CredentialError>(
            identity,
        ),
{
}

/// Whoever stands in the table of users can log in: under a name that
/// trims to the stored one and a password that matches the stored hash,
/// the login returns that user's identity, whatever else the database
/// holds.
pub proof fn law_stored_user_can_log_in(
    db: DatabaseView,
    i: int,
    username: Seq<char>,
    password: Seq<char>,
)
    requires
        well_formed(db),
        0 <= i < db.users.len(),
        trimmed(username) == db.users[i].username,
        db.users[i].username.len() > 0,
        password.len() > 0,
        password_matches(password, db.users[i].password_hash),
    ensures
        login_outcome(db.users, username, password) == Ok::<
            IdentityView,
            CredentialError,
        >(identity_of(db.users[i])),
{
}

/// A registration stores a name that is trimmed and has 3 to 50
/// characters; where every stored name was such a name before, every one
/// is after. So a database that registrations alone have filled holds such
/// names only.
pub proof fn law_registration_stores_valid_names(
    before: DatabaseView,
    after: DatabaseView,
    username: Seq<char>,
    password: Seq<char>,
    identity: IdentityView,
)
    requires
        registered(before, after, username, password, identity),
    ensures
        valid_username(after.users.last().username),
        (forall|i: int| 0 <= i < before.users.len() ==> valid_username(
            (#[trigger] before.users[i]).username,
        )) ==> (forall|i: int| 0 <= i < after.users.len() ==> valid_username(
            (#[trigger] after.users[i]).username,
        )),
{
    lemma_trimmed_idempotent(username);
}

/// A well-formed login fails in one and the same way where nobody has the
/// name and where the password does not match the stored hash: the two
/// answers are equal, so a caller cannot tell which of the two happened.
pub proof fn law_failed_logins_are_alike(
    users: Seq<UserView>,
    unknown: Seq<char>,
    any_password: Seq<char>,
    known: Seq<char>,
    wrong_password: Seq<char>,
)
    requires
        login_flaw(unknown, any_password) is None,
        login_flaw(known, wrong_password) is None,
        !has_username(users, trimmed(unknown)),
        has_username(users, trimmed(known)),
        !password_matches(wrong_password, user_named(users, trimmed(known)).password_hash),
    ensures
        login_outcome(users, unknown, any_password) == Err::<IdentityView, CredentialError>(
            CredentialError::InvalidCredentials,
        ),
        login_outcome(users, known, wrong_password) == login_outcome(users, unknown, any_password),
        CredentialError::InvalidCredentials.kind_of() == CredentialErrorKind::Auth,
{
}

/// Two submissions about the same item of the same user, one after the
/// other, leave exactly one entry about that item: it carries the title,
/// poster, status and rating of the second submission and the identifier
/// that the first one left it with, and the second submission adds no row.
pub proof fn law_upsert_twice_keeps_one_row(db: DatabaseView, first: UpsertView, second: UpsertView)
    requires
        well_formed(db),
        upsert_rejection(db, first) is None,
        second.user_id == first.user_id,
        second.item_id == first.item_id,
        second.item_type == first.item_type,
    ensures
        ({
            let once = upserted(db, first);
            let twice = upserted(once, second);
            let k = entry_index(twice.entries, second);
            &&& has_entry(once.entries, first)
            &&& has_entry(twice.entries, second)
            &&& twice.entries.len() == once.entries.len()
            &&& twice.users == db.users
            &&& forall|m: int|
                0 <= m < twice.entries.len() && same_key(#[trigger] twice.entries[m], second) ==> m
                    == k
            &&& twice.entries[k].id == once.entries[entry_index(once.entries, first)].id
            &&& twice.entries[k].title == second.title
            &&& twice.entries[k].poster_url == second.poster_url
            &&& twice.entries[k].status == second.status
            &&& twice.entries[k].rating == second.rating
        }),
{
    let once = upserted(db, first);
    // where the first submission's entry stands in `once`
    let at: int = if has_entry(db.entries, first) {
        entry_index(db.entries, first)
    } else {
        db.entries.len() as int
    };
    let twice = upserted(once, second);
    lemma_entry_index_unique(twice, second, at);
}

/// A submission to the library keeps the invariant of the database, whether
/// it inserts, overwrites or is turned down: there are never two entries
/// about the same item of the same user, and none without a registered
/// owner.
pub proof fn law_upsert_keeps_well_formed(db: DatabaseView, p: UpsertView)
    requires
        well_formed(db),
    ensures
        well_formed(upserted(db, p)),
{
}

/// Whether a query result `item` is the entry at some place of the table
/// that the query selects.
pub open spec fn comes_from(item: ItemView, entries: Seq<EntryView>, q: QueryView) -> bool {
    exists|k: int|
        0 <= k < entries.len() && selects(q, #[trigger] entries[k]) && item == item_of(entries[k])
}

/// A query returns selected entries only, and every selected entry.
pub proof fn lemma_selection_exact(entries: Seq<EntryView>, q: QueryView)
    ensures
        forall|i: int|
            0 <= i < selection(entries, q).len() ==> comes_from(
                #[trigger] selection(entries, q)[i],
                entries,
                q,
            ),
        forall|k: int|
            0 <= k < entries.len() && selects(q, #[trigger] entries[k]) ==> selection(
                entries,
                q,
            ).contains(item_of(entries[k])),
        selection(entries, q).len() <= entries.len(),
    decreases entries.len(),
{
    if entries.len() > 0 {
        let rest = entries.drop_last();
        let chosen = selection(entries, q);
        let earlier = selection(rest, q);
        lemma_selection_exact(rest, q);
        assert forall|i: int| 0 <= i < chosen.len() implies comes_from(
            #[trigger] chosen[i],
            entries,
            q,
        ) by {
            if i < earlier.len() {
                // the place in `rest` that this item comes from is a place in `entries`
                let k = choose|k: int|
                    0 <= k < rest.len() && selects(q, #[trigger] rest[k]) && earlier[i] == item_of(
                        rest[k],
                    );
            }
        }
        assert forall|k: int|
            0 <= k < entries.len() && selects(q, #[trigger] entries[k]) implies chosen.contains(
            item_of(entries[k]),
        ) by {
            if k < rest.len() {
                // where the item stands in `earlier`, it stands in `chosen`
                let i = choose|i: int| 0 <= i < earlier.len() && earlier[i] == item_of(rest[k]);
                assert(chosen[i] == earlier[i]);
            } else {
                assert(chosen[chosen.len() - 1] == item_of(entries.last()));
            }
        }
    }
}

/// A query with both filters returns only entries of that user that match
/// both, and all of them; a query without filters returns all entries of
/// that user and none of another user.
pub proof fn law_query_selects_exactly(db: DatabaseView, q: QueryView)
    requires
        well_formed(db),
    ensures
        forall|i: int|
            0 <= i < selection(db.entries, q).len() ==> comes_from(
                #[trigger] selection(db.entries, q)[i],
                db.entries,
                q,
            ),
        forall|k: int|
            0 <= k < db.entries.len() ==> (selects(q, #[trigger] db.entries[k]) <==> selection(
                db.entries,
                q,
            ).contains(item_of(db.entries[k]))),
        q.item_type is None && q.status is None ==> forall|k: int|
            0 <= k < db.entries.len() ==> ((#[trigger] db.entries[k]).user_id == q.user_id
                <==> selection(db.entries, q).contains(item_of(db.entries[k]))),
{
    lemma_selection_exact(db.entries, q);
}

/// A score of the anime catalog counts on the scale from 0 to 100, so it is
/// divided by 10; a score of the movie and TV catalog counts on the scale
/// from 0 to 10, so it is divided by 1. Either way the record carries the
/// number that the catalog reported, and no rating where it reported none.
pub proof fn law_each_catalog_has_its_scale(
    anime: AnimeMediaView,
    general: GeneralMediaView,
    kind: Seq<char>,
)
    ensures
        anime_summary(anime).community_rating is Some <==> anime.average_score is Some,
        anime_summary(anime).community_rating matches Some(r) ==> r.scale.divisor_of() == 10
            && Some(r.reported) == anime.average_score,
        anime_detail(anime).community_rating == anime_summary(anime).community_rating,
        general_summary(kind, general).community_rating is Some <==> general.vote_average
            is Some,
        general_summary(kind, general).community_rating matches Some(r) ==> r.scale.divisor_of()
            == 1 && Some(r.reported) == general.vote_average,
        general_detail(kind, general).community_rating == general_summary(
            kind,
            general,
        ).community_rating,
{
}

/// What a catalog left out stays absent in the record, and what it sent
/// empty stays empty: overview and poster are absent exactly where the
/// catalog's are, the anime catalog never has a count of votes, and the
/// genres are a list in every case.
pub proof fn law_absent_stays_absent(
    anime: AnimeMediaView,
    general: GeneralMediaView,
    kind: Seq<char>,
)
    ensures
        anime_summary(anime).overview == anime.description,
        anime_summary(anime).poster_url == anime.cover_image,
        anime_summary(anime).community_rating_count is None,
        anime_detail(anime).community_rating_count is None,
        anime_detail(anime).genres == anime.genres,
        general_summary(kind, general).overview == general.overview,
        general_summary(kind, general).poster_url is None <==> general.poster_path is None,
        general_summary(kind, general).community_rating_count is None <==> general.vote_count
            is None,
        general_detail(kind, general).genres == general.genres,
{
}

/// A title whose identifier is a JSON integer has that integer in decimal
/// as its identifier, in either catalog.
pub proof fn law_integer_identifier_is_its_decimal(title: Json, n: u64)
    requires
        title.member("id"@) == Json::Number(JsonNumber::Unsigned(n)),
    ensures
        anime_media_of(title).id == decimal(n as int),
        general_media_of(title).id == decimal(n as int),
{
}

} // verus!
