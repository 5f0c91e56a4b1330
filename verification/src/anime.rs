//! The adapter of the anime catalog: a GraphQL service that is asked with a
//! JSON body and answers with nested JSON.

use vstd::prelude::*;
use vstd::string::*;

use crate::catalog::answer_of;
use crate::catalog::clone_texts;
use crate::catalog::collect_texts;
use crate::catalog::first_title;
use crate::catalog::is_failure_of;
use crate::catalog::is_shape_failure;
use crate::catalog::shape_error;
use crate::catalog::narrow;
use crate::catalog::narrowed;
use crate::catalog::optional_text;
use crate::catalog::pick_title;
use crate::catalog::rate;
use crate::catalog::rating_on;
use crate::catalog::read_document;
use crate::catalog::search_items_view;
use crate::catalog::texts_among;
use crate::catalog::texts_view;
use crate::catalog::Answer;
use crate::catalog::CatalogError;
use crate::catalog::CatalogResponse;
use crate::catalog::DetailItem;
use crate::catalog::DetailItemView;
use crate::catalog::PostRequest;
use crate::catalog::RatingScale;
use crate::catalog::SearchItem;
use crate::catalog::SearchItemView;
use crate::json::integer_of;
use crate::json::is_object;
use crate::json::items_of;
use crate::json::json_items;
use crate::json::json_of;
use crate::json::member;
use crate::json::number_of;
use crate::json::render;
use crate::json::text_document;
use crate::json::written;
use crate::json::Json;
use crate::number::RealBits;
use crate::text::clone_text;
use crate::text::decimal;
use crate::text::decimal_text;
use crate::text::parse_i32;
use crate::text::parsed_i32;
use crate::text::text_view;

verus! {

/// One title as the anime catalog describes it.
#[derive(Clone, Debug, PartialEq)]
pub struct AnimeMedia {
    /// The catalog's identifier, as the JSON text it came as.
    pub id: String,
    pub english: Option<String>,
    pub romaji: Option<String>,
    pub native: Option<String>,
    pub cover_image: Option<String>,
    pub description: Option<String>,
    /// The average score, on the scale from 0 to 100.
    pub average_score: Option<RealBits>,
    pub season_year: Option<i64>,
    pub genres: Vec<String>,
}

/// A title of the anime catalog as the contracts see it.
pub struct AnimeMediaView {
    pub id: Seq<char>,
    pub english: Option<Seq<char>>,
    pub romaji: Option<Seq<char>>,
    pub native: Option<Seq<char>>,
    pub cover_image: Option<Seq<char>>,
    pub description: Option<Seq<char>>,
    pub average_score: Option<RealBits>,
    pub season_year: Option<i64>,
    pub genres: Seq<Seq<char>>,
}

impl View for AnimeMedia {
    type V = AnimeMediaView;

    open spec fn view(&self) -> AnimeMediaView {
        AnimeMediaView {
            id: self.id@,
            english: text_view(self.english),
            romaji: text_view(self.romaji),
            native: text_view(self.native),
            cover_image: text_view(self.cover_image),
            description: text_view(self.description),
            average_score: self.average_score,
            season_year: self.season_year,
            genres: texts_view(self.genres@),
        }
    }
}

/// The address of the anime catalog.
pub open spec fn endpoint() -> Seq<char> {
    "https://graphql.anilist.co"@
}

/// What a title of the anime catalog reads as, member by member. A member
/// that is missing or of another type reads as absent; the identifier is
/// the JSON text of the member `id`, whatever it holds.
pub open spec fn anime_media_of(j: Json) -> AnimeMediaView {
    AnimeMediaView {
        id: written(j.member("id"@)),
        english: j.member("title"@).member("english"@).text(),
        romaji: j.member("title"@).member("romaji"@).text(),
        native: j.member("title"@).member("native"@).text(),
        cover_image: j.member("coverImage"@).member("large"@).text(),
        description: j.member("description"@).text(),
        average_score: j.member("averageScore"@).number(),
        season_year: j.member("seasonYear"@).integer(),
        genres: texts_among(j.member("genres"@), None),
    }
}

/// The list record of a title of the anime catalog: the type is `anime`;
/// the title is the English one, else the romanized one, else the native
/// one, else empty; the score counts on the scale from 0 to 100; there is
/// never a count of votes.
pub open spec fn anime_summary(m: AnimeMediaView) -> SearchItemView {
    SearchItemView {
        item_id: m.id,
        item_type: "anime"@,
        title: first_title(m.english, m.romaji, m.native),
        poster_url: m.cover_image,
        overview: m.description,
        community_rating: rating_on(RatingScale::Hundred, m.average_score),
        community_rating_count: None,
    }
}

/// The full record of a title of the anime catalog: the list record, the
/// season's year and the genres as they came.
pub open spec fn anime_detail(m: AnimeMediaView) -> DetailItemView {
    DetailItemView {
        item_id: m.id,
        item_type: "anime"@,
        title: first_title(m.english, m.romaji, m.native),
        poster_url: m.cover_image,
        overview: m.description,
        year: narrowed(m.season_year),
        genres: m.genres,
        community_rating: rating_on(RatingScale::Hundred, m.average_score),
        community_rating_count: None,
    }
}

/// The records of a page of titles: one for each item of
/// `data.Page.media`, in order. `None` where that is no array: such a
/// document is no page.
pub open spec fn anime_page_of(root: Json) -> Option<Seq<SearchItemView>> {
    match root.member("data"@).member("Page"@).member("media"@).items() {
        Some(items) => Some(items.map_values(|m: Json| anime_summary(anime_media_of(m)))),
        None => None,
    }
}

/// The record of a single title: that of `data.Media`. `None` where that
/// is no object: such a document holds no title.
pub open spec fn anime_single_of(root: Json) -> Option<DetailItemView> {
    if root.member("data"@).member("Media"@) is Object {
        Some(anime_detail(anime_media_of(root.member("data"@).member("Media"@))))
    } else {
        None
    }
}

impl AnimeMedia {
    /// Reads a title from the catalog's JSON.
    pub fn read(v: &serde_json::Value) -> (m: AnimeMedia)
        ensures
            m@ == anime_media_of(json_of(*v)),
    {
        let title = member(v, "title");
        AnimeMedia {
            id: render(member(v, "id")),
            english: optional_text(member(title, "english")),
            romaji: optional_text(member(title, "romaji")),
            native: optional_text(member(title, "native")),
            cover_image: optional_text(member(member(v, "coverImage"), "large")),
            description: optional_text(member(v, "description")),
            average_score: number_of(member(v, "averageScore")),
            season_year: integer_of(member(v, "seasonYear")),
            genres: collect_texts(member(v, "genres"), None),
        }
    }

    /// The list record of this title.
    pub fn summary(&self) -> (item: SearchItem)
        ensures
            item@ == anime_summary(self@),
    {
        SearchItem {
            item_id: self.id.clone(),
            item_type: String::from_str("anime"),
            title: pick_title(&self.english, &self.romaji, &self.native),
            poster_url: clone_text(&self.cover_image),
            overview: clone_text(&self.description),
            community_rating: rate(RatingScale::Hundred, self.average_score),
            community_rating_count: None,
        }
    }

    /// The full record of this title.
    pub fn detail(&self) -> (item: DetailItem)
        ensures
            item@ == anime_detail(self@),
    {
        DetailItem {
            item_id: self.id.clone(),
            item_type: String::from_str("anime"),
            title: pick_title(&self.english, &self.romaji, &self.native),
            poster_url: clone_text(&self.cover_image),
            overview: clone_text(&self.description),
            year: narrow(self.season_year),
            genres: clone_texts(&self.genres),
            community_rating: rate(RatingScale::Hundred, self.average_score),
            community_rating_count: None,
        }
    }
}

/// The records of a page of titles, from the catalog's answer as a
/// document. A document without the array `data.Page.media` is a format
/// error; within a title, whatever is missing reads as absent.
pub fn anime_page_items(root: &serde_json::Value) -> (r: Result<Vec<SearchItem>, CatalogError>)
    ensures
        match anime_page_of(json_of(*root)) {
            Some(records) => r matches Ok(items) && search_items_view(items@) == records,
            None => is_shape_failure(r),
        },
{
    match items_of(member(member(member(root, "data"), "Page"), "media")) {
        None => Err(shape_error()),
        Some(media) => {
            let mut out: Vec<SearchItem> = Vec::new();
            let ghost all = json_items(media@);
            let ghost wanted = all.map_values(|m: Json| anime_summary(anime_media_of(m)));
            let mut i: usize = 0;
            while i < media.len()
                invariant
                    i <= media.len(),
                    all == json_items(media@),
                    wanted == all.map_values(|m: Json| anime_summary(anime_media_of(m))),
                    search_items_view(out@) == wanted.take(i as int),
                decreases media.len() - i,
            {
                let ghost shown = search_items_view(out@);
                let item = AnimeMedia::read(&media[i]).summary();
                out.push(item);
                assert(search_items_view(out@) =~= shown.push(item@));
                i = i + 1;
            }
            Ok(out)
        },
    }
}

/// The record of a single title, from the catalog's answer as a document.
/// A document whose `data.Media` is no object is a format error; within
/// the title, whatever is missing reads as absent.
pub fn anime_single_item(root: &serde_json::Value) -> (r: Result<DetailItem, CatalogError>)
    ensures
        match anime_single_of(json_of(*root)) {
            Some(record) => r matches Ok(item) && item@ == record,
            None => is_shape_failure(r),
        },
{
    let media = member(member(root, "data"), "Media");
    if is_object(media) {
        Ok(AnimeMedia::read(media).detail())
    } else {
        Err(shape_error())
    }
}

/// The body of a search around the text that is searched for, which comes
/// as a JSON string, quoted and escaped: the query document for up to 12
/// titles that match a text, and the text as the variable `query`.
pub open spec fn search_body_around(quoted: Seq<char>) -> Seq<char> {
    "{\"query\":\"query ($query: String) { Page(perPage: 12) { media(search: $query, type: ANIME) { id title { romaji english native } coverImage { large } description(asHtml: false) averageScore meanScore } } }\",\"variables\":{\"query\":"@
        + quoted + "}}"@
}

/// The body of a search for `query`.
pub open spec fn search_body(query: Seq<char>) -> Seq<char> {
    search_body_around(written(Json::Text(query)))
}

/// The body of a discovery: the query document for one page of 24 titles,
/// trending first, and the page as the variable `page`.
pub open spec fn discover_body(page: i32) -> Seq<char> {
    "{\"query\":\"query ($page: Int) { Page(page: $page, perPage: 24) { media(type: ANIME, sort: TRENDING_DESC) { id title { romaji english native } coverImage { large } description(asHtml: false) } } }\",\"variables\":{\"page\":"@
        + decimal(page as int) + "}}"@
}

/// The body of a lookup: the query document for one title, and its number
/// as the variable `id`.
pub open spec fn detail_body(id: i32) -> Seq<char> {
    "{\"query\":\"query ($id: Int) { Media(id: $id, type: ANIME) { id title { romaji english native } coverImage { large } description(asHtml: false) seasonYear genres } }\",\"variables\":{\"id\":"@
        + decimal(id as int) + "}}"@
}

/// The page that is asked for: the one given, cut to 32 signed bits, and
/// the first where none is given.
pub open spec fn page_number(page: Option<u32>) -> i32 {
    match page {
        Some(p) => p as i32,
        None => 1,
    }
}

/// The number that a lookup asks for: the identifier read as a 32-bit
/// signed decimal, and 0 for an identifier that is no such number.
pub open spec fn lookup_number(id: Seq<char>) -> i32 {
    match parsed_i32(id) {
        Some(n) => n,
        None => 0,
    }
}

/// The body of a search around `quoted`, the text that is searched for as a
/// JSON string.
pub fn search_anime_body(quoted: &str) -> (body: String)
    ensures
        body@ == search_body_around(quoted@),
{
    let mut body = String::from_str(
        "{\"query\":\"query ($query: String) { Page(perPage: 12) { media(search: $query, type: ANIME) { id title { romaji english native } coverImage { large } description(asHtml: false) averageScore meanScore } } }\",\"variables\":{\"query\":",
    );
    body.append(quoted);
    body.append("}}");
    body
}

/// The request of a search for `query`: the text goes into the body as a
/// JSON string, quoted and escaped by serde_json.
pub fn search_anime_request(query: &str) -> (r: PostRequest)
    ensures
        r.url@ == endpoint(),
        r.body@ == search_body(query@),
{
    let quoted = render(&text_document(query));
    PostRequest {
        url: String::from_str("https://graphql.anilist.co"),
        body: search_anime_body(quoted.as_str()),
    }
}

/// The request of a discovery of page `page`; the first page where none is
/// given.
pub fn discover_anime_request(page: Option<u32>) -> (r: PostRequest)
    ensures
        r.url@ == endpoint(),
        r.body@ == discover_body(page_number(page)),
{
    let number: i32 = match page {
        Some(p) => #[verifier::truncate] (p as i32),
        None => 1,
    };
    let mut body = String::from_str(
        "{\"query\":\"query ($page: Int) { Page(page: $page, perPage: 24) { media(type: ANIME, sort: TRENDING_DESC) { id title { romaji english native } coverImage { large } description(asHtml: false) } } }\",\"variables\":{\"page\":",
    );
    let digits = decimal_text(number as i64);
    body.append(digits.as_str());
    body.append("}}");
    PostRequest { url: String::from_str("https://graphql.anilist.co"), body }
}

/// The request of a lookup of the title `id`. An identifier that is no
/// number asks for title 0: it is not turned down.
pub fn get_anime_detail_request(id: &str) -> (r: PostRequest)
    ensures
        r.url@ == endpoint(),
        r.body@ == detail_body(lookup_number(id@)),
{
    let number: i32 = match parse_i32(id) {
        Some(n) => n,
        None => 0,
    };
    let mut body = String::from_str(
        "{\"query\":\"query ($id: Int) { Media(id: $id, type: ANIME) { id title { romaji english native } coverImage { large } description(asHtml: false) seasonYear genres } }\",\"variables\":{\"id\":",
    );
    let digits = decimal_text(number as i64);
    body.append(digits.as_str());
    body.append("}}");
    PostRequest { url: String::from_str("https://graphql.anilist.co"), body }
}

/// The records that the answer to a search holds. The answer must be a
/// success, a JSON document, and hold the array `data.Page.media`; anything
/// else is one error.
pub fn search_anime_response(response: &CatalogResponse) -> (r: Result<
    Vec<SearchItem>,
    CatalogError,
>)
    ensures
        match answer_of(response.status, response.body@) {
            Answer::Document(root) => match anime_page_of(root) {
                Some(records) => r matches Ok(items) && search_items_view(items@) == records,
                None => is_shape_failure(r),
            },
            _ => is_failure_of(r, response.status, response.body@),
        },
{
    match read_document(response) {
        Ok(root) => anime_page_items(&root),
        Err(e) => Err(e),
    }
}

/// The records that the answer to a discovery holds: the mapping is that of
/// a search.
pub fn discover_anime_response(response: &CatalogResponse) -> (r: Result<
    Vec<SearchItem>,
    CatalogError,
>)
    ensures
        match answer_of(response.status, response.body@) {
            Answer::Document(root) => match anime_page_of(root) {
                Some(records) => r matches Ok(items) && search_items_view(items@) == records,
                None => is_shape_failure(r),
            },
            _ => is_failure_of(r, response.status, response.body@),
        },
{
    search_anime_response(response)
}

/// The record that the answer to a lookup holds. The answer must be a
/// success, a JSON document, and hold the object `data.Media`; anything
/// else is one error.
pub fn get_anime_detail_response(response: &CatalogResponse) -> (r: Result<
    DetailItem,
    CatalogError,
>)
    ensures
        match answer_of(response.status, response.body@) {
            Answer::Document(root) => match anime_single_of(root) {
                Some(record) => r matches Ok(item) && item@ == record,
                None => is_shape_failure(r),
            },
            _ => is_failure_of(r, response.status, response.body@),
        },
{
    match read_document(response) {
        Ok(root) => anime_single_item(&root),
        Err(e) => Err(e),
    }
}

} // verus!
