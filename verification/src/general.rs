//! The adapter of the movie and TV catalog: a REST service that is asked
//! with GET under one of two credentials and answers with flat JSON.

use vstd::prelude::*;
use vstd::string::*;
use vstd::utf8::*;

use crate::catalog::answer_of;
use crate::catalog::clone_texts;
use crate::catalog::collect_texts;
use crate::catalog::is_failure_of;
use crate::catalog::is_shape_failure;
use crate::catalog::shape_error;
use crate::catalog::narrow;
use crate::catalog::narrowed;
use crate::catalog::optional_text;
use crate::catalog::or_empty;
use crate::catalog::rate;
use crate::catalog::rating_on;
use crate::catalog::read_document;
use crate::catalog::search_items_view;
use crate::catalog::texts_among;
use crate::catalog::texts_view;
use crate::catalog::title_or_empty;
use crate::catalog::Answer;
use crate::catalog::CatalogError;
use crate::catalog::CatalogResponse;
use crate::catalog::DetailItem;
use crate::catalog::DetailItemView;
use crate::catalog::GetRequest;
use crate::catalog::RatingScale;
use crate::catalog::SearchItem;
use crate::catalog::SearchItemView;
use crate::json::integer_of;
use crate::json::is_object;
use crate::json::items_of;
use crate::json::json_items;
use crate::json::json_of;
use crate::json::member;
use crate::json::number_of;
use crate::json::render;
use crate::json::written;
use crate::json::Json;
use crate::number::RealBits;
use crate::text::char_count;
use crate::text::clone_text;
use crate::text::decimal;
use crate::text::decimal_text;
use crate::text::parse_i32;
use crate::text::parsed_i32;
use crate::text::text_eq;
use crate::text::text_view;

verus! {

/// The credential under which the catalog is asked.
#[derive(Clone, Debug, PartialEq)]
pub enum GeneralAuth {
    /// A token, sent in the `Authorization` header.
    Bearer(String),
    /// A key, sent as the query parameter `api_key`.
    ApiKey(String),
}

/// A credential as the contracts see it.
pub enum GeneralAuthView {
    Bearer(Seq<char>),
    ApiKey(Seq<char>),
}

impl View for GeneralAuth {
    type V = GeneralAuthView;

    open spec fn view(&self) -> GeneralAuthView {
        match self {
            GeneralAuth::Bearer(token) => GeneralAuthView::Bearer(token@),
            GeneralAuth::ApiKey(key) => GeneralAuthView::ApiKey(key@),
        }
    }
}

/// The credential that two optional settings select: the token where it is
/// set, else the key, else none.
pub open spec fn selected_auth(bearer: Option<Seq<char>>, api_key: Option<Seq<char>>) -> Option<
    GeneralAuthView,
> {
    match bearer {
        Some(token) => Some(GeneralAuthView::Bearer(token)),
        None => match api_key {
            Some(key) => Some(GeneralAuthView::ApiKey(key)),
            None => None,
        },
    }
}

/// Selects the credential from the two settings: the bearer token where it
/// is set, whatever the key; else the key. With neither the call fails at
/// once, as a configuration error.
pub fn select_auth(bearer: Option<String>, api_key: Option<String>) -> (r: Result<
    GeneralAuth,
    CatalogError,
>)
    ensures
        match selected_auth(text_view(bearer), text_view(api_key)) {
            Some(auth) => r matches Ok(chosen) && chosen@ == auth,
            None => r matches Err(e) && e is Config,
        },
{
    match bearer {
        Some(token) => Ok(GeneralAuth::Bearer(token)),
        None => match api_key {
            Some(key) => Ok(GeneralAuth::ApiKey(key)),
            None => Err(CatalogError::Config),
        },
    }
}

/// The bytes that stand in a URL as they are: ASCII letters and digits, and
/// `-`, `.`, `_`, `~`.
pub open spec fn is_unreserved(b: u8) -> bool {
    ||| (0x30 <= b && b <= 0x39)
    ||| (0x41 <= b && b <= 0x5a)
    ||| (0x61 <= b && b <= 0x7a)
    ||| b == 0x2d
    ||| b == 0x2e
    ||| b == 0x5f
    ||| b == 0x7e
}

/// The upper-case hexadecimal digit of a value below 16.
pub open spec fn hex_digit(n: int) -> char {
    if n < 10 {
        ('0' as int + n) as char
    } else {
        ('A' as int + n - 10) as char
    }
}

/// One byte as it stands in a URL: itself where it is unreserved, and else
/// `%` and its two hexadecimal digits.
pub open spec fn escaped_byte(b: u8) -> Seq<char> {
    if is_unreserved(b) {
        seq![b as char]
    } else {
        seq!['%', hex_digit(b as int / 16), hex_digit(b as int % 16)]
    }
}

/// Bytes as they stand in a URL, each escaped by itself.
pub open spec fn percent_encoded(bytes: Seq<u8>) -> Seq<char>
    decreases bytes.len(),
{
    if bytes.len() == 0 {
        Seq::empty()
    } else {
        percent_encoded(bytes.drop_last()) + escaped_byte(bytes.last())
    }
}

/// `urlencoding::encode`: the UTF-8 bytes of `text`, each but the ASCII
/// letters and digits and `-`, `.`, `_`, `~` replaced by `%` and its two
/// upper-case hexadecimal digits.
#[verifier::external_body]
fn url_encode(text: &str) -> (r: String)
    ensures
        r@ == percent_encoded(encode_utf8(text@)),
{
    urlencoding::encode(text).into_owned()
}

/// What is appended to a URL for the credential: the key behind `lead`
/// where the key is the credential, and nothing for a token.
pub open spec fn key_suffix(auth: GeneralAuthView, lead: Seq<char>) -> Seq<char> {
    match auth {
        GeneralAuthView::Bearer(_) => Seq::empty(),
        GeneralAuthView::ApiKey(key) => lead + key,
    }
}

/// The `Authorization` header for the credential: `Bearer` and the token,
/// and none for a key.
pub open spec fn authorization_of(auth: GeneralAuthView) -> Option<Seq<char>> {
    match auth {
        GeneralAuthView::Bearer(token) => Some("Bearer "@ + token),
        GeneralAuthView::ApiKey(_) => None,
    }
}

/// The path segment of a kind in a lookup: `movie` for `movie`, and `tv`
/// for anything else.
pub open spec fn kind_segment(kind: Seq<char>) -> Seq<char> {
    if kind == "movie"@ {
        "movie"@
    } else {
        "tv"@
    }
}

/// The URL of a search: the kind as it came, the text percent-encoded.
pub open spec fn search_url(kind: Seq<char>, query: Seq<char>, auth: GeneralAuthView) -> Seq<char> {
    "https://api.themoviedb.org/3/search/"@ + kind + "?query="@ + percent_encoded(
        encode_utf8(query),
    ) + key_suffix(auth, "&api_key="@)
}

/// The URL of a discovery: most popular first, the page in decimal.
pub open spec fn discover_url(kind: Seq<char>, page: u32, auth: GeneralAuthView) -> Seq<char> {
    "https://api.themoviedb.org/3/discover/"@ + kind + "?sort_by=popularity.desc&page="@ + decimal(
        page as int,
    ) + key_suffix(auth, "&api_key="@)
}

/// The URL of a lookup: the identifier as it came.
pub open spec fn detail_url(kind: Seq<char>, id: Seq<char>, auth: GeneralAuthView) -> Seq<char> {
    "https://api.themoviedb.org/3/"@ + kind_segment(kind) + "/"@ + id + key_suffix(
        auth,
        "?api_key="@,
    )
}

/// The page that is asked for: the first where none is given.
pub open spec fn page_or_first(page: Option<u32>) -> u32 {
    match page {
        Some(p) => p,
        None => 1,
    }
}

/// Finishes a request: appends the key to the URL where the key is the
/// credential, and sets the header where the token is.
fn authorized(url: String, auth: &GeneralAuth, lead: &str) -> (r: GetRequest)
    ensures
        r.url@ == url@ + key_suffix(auth@, lead@),
        text_view(r.authorization) == authorization_of(auth@),
{
    match auth {
        GeneralAuth::Bearer(token) => {
            let mut header = String::from_str("Bearer ");
            header.append(token.as_str());
            GetRequest { url, authorization: Some(header) }
        },
        GeneralAuth::ApiKey(key) => {
            let mut url = url;
            url.append(lead);
            url.append(key.as_str());
            GetRequest { url, authorization: None }
        },
    }
}

/// The request of a search for `query` among the titles of `kind`.
pub fn search_tmdb_request(kind: &str, query: &str, auth: &GeneralAuth) -> (r: GetRequest)
    ensures
        r.url@ == search_url(kind@, query@, auth@),
        text_view(r.authorization) == authorization_of(auth@),
{
    let mut url = String::from_str("https://api.themoviedb.org/3/search/");
    url.append(kind);
    url.append("?query=");
    let encoded = url_encode(query);
    url.append(encoded.as_str());
    authorized(url, auth, "&api_key=")
}

/// The request of a discovery of page `page` among the titles of `kind`;
/// the first page where none is given.
pub fn discover_tmdb_request(kind: &str, page: Option<u32>, auth: &GeneralAuth) -> (r: GetRequest)
    ensures
        r.url@ == discover_url(kind@, page_or_first(page), auth@),
        text_view(r.authorization) == authorization_of(auth@),
{
    let number: u32 = match page {
        Some(p) => p,
        None => 1,
    };
    let mut url = String::from_str("https://api.themoviedb.org/3/discover/");
    url.append(kind);
    url.append("?sort_by=popularity.desc&page=");
    let digits = decimal_text(number as i64);
    url.append(digits.as_str());
    authorized(url, auth, "&api_key=")
}

/// The request of a lookup of the title `id` of `kind`.
pub fn get_tmdb_detail_request(kind: &str, id: &str, auth: &GeneralAuth) -> (r: GetRequest)
    ensures
        r.url@ == detail_url(kind@, id@, auth@),
        text_view(r.authorization) == authorization_of(auth@),
{
    let mut url = String::from_str("https://api.themoviedb.org/3/");
    if text_eq(kind, "movie") {
        url.append("movie");
    } else {
        url.append("tv");
    }
    url.append("/");
    url.append(id);
    authorized(url, auth, "?api_key=")
}

/// One title as the movie and TV catalog describes it.
#[derive(Clone, Debug, PartialEq)]
pub struct GeneralMedia {
    /// The catalog's identifier, as the JSON text it came as.
    pub id: String,
    /// The title of a movie.
    pub title: Option<String>,
    /// The title of a TV show.
    pub name: Option<String>,
    /// The poster, as a path below the image base.
    pub poster_path: Option<String>,
    pub overview: Option<String>,
    /// The average vote, on the scale from 0 to 10.
    pub vote_average: Option<RealBits>,
    pub vote_count: Option<i64>,
    /// The release date of a movie.
    pub release_date: Option<String>,
    /// The date on which a TV show first aired.
    pub first_air_date: Option<String>,
    pub genres: Vec<String>,
}

/// A title of the movie and TV catalog as the contracts see it.
pub struct GeneralMediaView {
    pub id: Seq<char>,
    pub title: Option<Seq<char>>,
    pub name: Option<Seq<char>>,
    pub poster_path: Option<Seq<char>>,
    pub overview: Option<Seq<char>>,
    pub vote_average: Option<RealBits>,
    pub vote_count: Option<i64>,
    pub release_date: Option<Seq<char>>,
    pub first_air_date: Option<Seq<char>>,
    pub genres: Seq<Seq<char>>,
}

impl View for GeneralMedia {
    type V = GeneralMediaView;

    open spec fn view(&self) -> GeneralMediaView {
        GeneralMediaView {
            id: self.id@,
            title: text_view(self.title),
            name: text_view(self.name),
            poster_path: text_view(self.poster_path),
            overview: text_view(self.overview),
            vote_average: self.vote_average,
            vote_count: self.vote_count,
            release_date: text_view(self.release_date),
            first_air_date: text_view(self.first_air_date),
            genres: texts_view(self.genres@),
        }
    }
}

/// What a title of the movie and TV catalog reads as, member by member. A
/// member that is missing or of another type reads as absent; the genres
/// are the names of the items of `genres`.
pub open spec fn general_media_of(j: Json) -> GeneralMediaView {
    GeneralMediaView {
        id: written(j.member("id"@)),
        title: j.member("title"@).text(),
        name: j.member("name"@).text(),
        poster_path: j.member("poster_path"@).text(),
        overview: j.member("overview"@).text(),
        vote_average: j.member("vote_average"@).number(),
        vote_count: j.member("vote_count"@).integer(),
        release_date: j.member("release_date"@).text(),
        first_air_date: j.member("first_air_date"@).text(),
        genres: texts_among(j.member("genres"@), Some("name"@)),
    }
}

/// The address of a poster: the image base and the path; absent where the
/// catalog gave no path.
pub open spec fn poster_of(path: Option<Seq<char>>) -> Option<Seq<char>> {
    match path {
        Some(p) => Some("https://image.tmdb.org/t/p/w500"@ + p),
        None => None,
    }
}

/// The title of a record of `kind`: that of the movie for `movie`, and the
/// name of the show for anything else; empty where it is absent.
pub open spec fn title_for(kind: Seq<char>, m: GeneralMediaView) -> Seq<char> {
    if kind == "movie"@ {
        title_or_empty(m.title)
    } else {
        title_or_empty(m.name)
    }
}

/// The year that a date starts with: its first four characters read as a
/// signed decimal. Absent where the date is absent, has fewer than four
/// characters, or does not start with a number.
pub open spec fn year_of(date: Option<Seq<char>>) -> Option<i32> {
    match date {
        Some(d) => if d.len() >= 4 {
            parsed_i32(d.take(4))
        } else {
            None
        },
        None => None,
    }
}

/// The date that gives a record of `kind` its year: the release of a
/// movie, and the first airing of anything else.
pub open spec fn date_for(kind: Seq<char>, m: GeneralMediaView) -> Option<Seq<char>> {
    if kind == "movie"@ {
        m.release_date
    } else {
        m.first_air_date
    }
}

/// The list record of a title of the movie and TV catalog: the type is the
/// kind that was asked for; the score is on the scale from 0 to 10 already
/// and is handed on unchanged, with the count of votes.
pub open spec fn general_summary(kind: Seq<char>, m: GeneralMediaView) -> SearchItemView {
    SearchItemView {
        item_id: m.id,
        item_type: kind,
        title: title_for(kind, m),
        poster_url: poster_of(m.poster_path),
        overview: m.overview,
        community_rating: rating_on(RatingScale::Ten, m.vote_average),
        community_rating_count: narrowed(m.vote_count),
    }
}

/// The full record of a title of the movie and TV catalog: the list
/// record, the year of its date and the names of its genres.
pub open spec fn general_detail(kind: Seq<char>, m: GeneralMediaView) -> DetailItemView {
    DetailItemView {
        item_id: m.id,
        item_type: kind,
        title: title_for(kind, m),
        poster_url: poster_of(m.poster_path),
        overview: m.overview,
        year: year_of(date_for(kind, m)),
        genres: m.genres,
        community_rating: rating_on(RatingScale::Ten, m.vote_average),
        community_rating_count: narrowed(m.vote_count),
    }
}

/// The records of a list of titles: one for each item of `results`, in
/// order. `None` where that is no array: such a document is no list.
pub open spec fn general_results_of(kind: Seq<char>, root: Json) -> Option<Seq<SearchItemView>> {
    match root.member("results"@).items() {
        Some(items) => Some(
            items.map_values(|m: Json| general_summary(kind, general_media_of(m))),
        ),
        None => None,
    }
}

/// The record of a single title: that of the document itself. `None` where
/// the document is no object: it holds no title then.
pub open spec fn general_single_of(kind: Seq<char>, root: Json) -> Option<DetailItemView> {
    if root is Object {
        Some(general_detail(kind, general_media_of(root)))
    } else {
        None
    }
}

/// The year that a date starts with.
pub fn year_from(date: &Option<String>) -> (year: Option<i32>)
    ensures
        year == year_of(text_view(*date)),
{
    match date {
        None => None,
        Some(d) => {
            let text = d.as_str();
            if char_count(text) < 4 {
                None
            } else {
                parse_i32(text.substring_char(0, 4))
            }
        },
    }
}

/// The address of a poster.
pub fn poster_url(path: &Option<String>) -> (url: Option<String>)
    ensures
        text_view(url) == poster_of(text_view(*path)),
{
    match path {
        None => None,
        Some(p) => {
            let mut url = String::from_str("https://image.tmdb.org/t/p/w500");
            url.append(p.as_str());
            Some(url)
        },
    }
}

impl GeneralMedia {
    /// Reads a title from the catalog's JSON.
    pub fn read(v: &serde_json::Value) -> (m: GeneralMedia)
        ensures
            m@ == general_media_of(json_of(*v)),
    {
        GeneralMedia {
            id: render(member(v, "id")),
            title: optional_text(member(v, "title")),
            name: optional_text(member(v, "name")),
            poster_path: optional_text(member(v, "poster_path")),
            overview: optional_text(member(v, "overview")),
            vote_average: number_of(member(v, "vote_average")),
            vote_count: integer_of(member(v, "vote_count")),
            release_date: optional_text(member(v, "release_date")),
            first_air_date: optional_text(member(v, "first_air_date")),
            genres: collect_texts(member(v, "genres"), Some("name")),
        }
    }

    /// The title of this record under `kind`.
    fn title_under(&self, kind: &str) -> (title: String)
        ensures
            title@ == title_for(kind@, self@),
    {
        if text_eq(kind, "movie") {
            or_empty(&self.title)
        } else {
            or_empty(&self.name)
        }
    }

    /// The list record of this title, asked for as `kind`.
    pub fn summary(&self, kind: &str) -> (item: SearchItem)
        ensures
            item@ == general_summary(kind@, self@),
    {
        SearchItem {
            item_id: self.id.clone(),
            item_type: kind.to_owned(),
            title: self.title_under(kind),
            poster_url: poster_url(&self.poster_path),
            overview: clone_text(&self.overview),
            community_rating: rate(RatingScale::Ten, self.vote_average),
            community_rating_count: narrow(self.vote_count),
        }
    }

    /// The full record of this title, asked for as `kind`.
    pub fn detail(&self, kind: &str) -> (item: DetailItem)
        ensures
            item@ == general_detail(kind@, self@),
    {
        let year = if text_eq(kind, "movie") {
            year_from(&self.release_date)
        } else {
            year_from(&self.first_air_date)
        };
        DetailItem {
            item_id: self.id.clone(),
            item_type: kind.to_owned(),
            title: self.title_under(kind),
            poster_url: poster_url(&self.poster_path),
            overview: clone_text(&self.overview),
            year,
            genres: clone_texts(&self.genres),
            community_rating: rate(RatingScale::Ten, self.vote_average),
            community_rating_count: narrow(self.vote_count),
        }
    }
}

/// The records of a list of titles, from the catalog's answer as a
/// document. A document without the array `results` is a format error;
/// within a title, whatever is missing reads as absent.
pub fn general_result_items(kind: &str, root: &serde_json::Value) -> (r: Result<
    Vec<SearchItem>,
    CatalogError,
>)
    ensures
        match general_results_of(kind@, json_of(*root)) {
            Some(records) => r matches Ok(items) && search_items_view(items@) == records,
            None => is_shape_failure(r),
        },
{
    match items_of(member(root, "results")) {
        None => Err(shape_error()),
        Some(results) => {
            let mut out: Vec<SearchItem> = Vec::new();
            let ghost all = json_items(results@);
            let ghost wanted = all.map_values(
                |m: Json| general_summary(kind@, general_media_of(m)),
            );
            let mut i: usize = 0;
            while i < results.len()
                invariant
                    i <= results.len(),
                    all == json_items(results@),
                    wanted == all.map_values(
                        |m: Json| general_summary(kind@, general_media_of(m)),
                    ),
                    search_items_view(out@) == wanted.take(i as int),
                decreases results.len() - i,
            {
                let ghost shown = search_items_view(out@);
                let item = GeneralMedia::read(&results[i]).summary(kind);
                out.push(item);
                assert(search_items_view(out@) =~= shown.push(item@));
                i = i + 1;
            }
            Ok(out)
        },
    }
}

/// The record of a single title, from the catalog's answer as a document.
/// A document that is no object is a format error; within the title,
/// whatever is missing reads as absent.
pub fn general_single_item(kind: &str, root: &serde_json::Value) -> (r: Result<
    DetailItem,
    CatalogError,
>)
    ensures
        match general_single_of(kind@, json_of(*root)) {
            Some(record) => r matches Ok(item) && item@ == record,
            None => is_shape_failure(r),
        },
{
    if is_object(root) {
        Ok(GeneralMedia::read(root).detail(kind))
    } else {
        Err(shape_error())
    }
}

/// The records that the answer to a search holds. The answer must be a
/// success, a JSON document, and hold the array `results`; anything else
/// is one error.
pub fn search_tmdb_response(kind: &str, response: &CatalogResponse) -> (r: Result<
    Vec<SearchItem>,
    CatalogError,
>)
    ensures
        match answer_of(response.status, response.body@) {
            Answer::Document(root) => match general_results_of(kind@, root) {
                Some(records) => r matches Ok(items) && search_items_view(items@) == records,
                None => is_shape_failure(r),
            },
            _ => is_failure_of(r, response.status, response.body@),
        },
{
    match read_document(response) {
        Ok(root) => general_result_items(kind, &root),
        Err(e) => Err(e),
    }
}

/// The records that the answer to a discovery holds: the mapping is that of
/// a search.
pub fn discover_tmdb_response(kind: &str, response: &CatalogResponse) -> (r: Result<
    Vec<SearchItem>,
    CatalogError,
>)
    ensures
        match answer_of(response.status, response.body@) {
            Answer::Document(root) => match general_results_of(kind@, root) {
                Some(records) => r matches Ok(items) && search_items_view(items@) == records,
                None => is_shape_failure(r),
            },
            _ => is_failure_of(r, response.status, response.body@),
        },
{
    search_tmdb_response(kind, response)
}

/// The record that the answer to a lookup holds: the answer itself is the
/// title. It must be a success, a JSON document, and an object; anything
/// else is one error.
pub fn get_tmdb_detail_response(kind: &str, response: &CatalogResponse) -> (r: Result<
    DetailItem,
    CatalogError,
>)
    ensures
        match answer_of(response.status, response.body@) {
            Answer::Document(root) => match general_single_of(kind@, root) {
                Some(record) => r matches Ok(item) && item@ == record,
                None => is_shape_failure(r),
            },
            _ => is_failure_of(r, response.status, response.body@),
        },
{
    match read_document(response) {
        Ok(root) => general_single_item(kind, &root),
        Err(e) => Err(e),
    }
}

} // verus!
