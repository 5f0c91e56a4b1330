//! The record shape that both catalogs are mapped onto, and what the two
//! adapters share: ratings and their scales, the errors of a catalog call,
//! and the requests that the adapters hand out for sending.

use vstd::prelude::*;
use vstd::string::*;

use crate::json::error_text;
use crate::json::items_of;
use crate::json::json_document;
use crate::json::json_items;
use crate::json::json_of;
use crate::json::member;
use crate::json::parse_document;
use crate::json::text_of;
use crate::json::Json;
use crate::number::RealBits;
use crate::text::decimal;
use crate::text::decimal_text;
use crate::text::text_view;

verus! {

/// The scale on which a catalog reports its community score.
#[derive(Clone, Copy, PartialEq, Eq, Structural, Debug)]
pub enum RatingScale {
    /// From 0 to 10: the scale of the normalized records.
    Ten,
    /// From 0 to 100.
    Hundred,
}

/// A community score on the scale from 0 to 10: the number that the
/// catalog reported, over the divisor of the scale it was reported on.
#[derive(Clone, Copy, PartialEq, Eq, Structural, Debug)]
pub struct CommunityRating {
    pub reported: RealBits,
    pub scale: RatingScale,
}

impl RatingScale {
    /// What a score on this scale is divided by to stand on the scale from
    /// 0 to 10.
    pub open spec fn divisor_of(self) -> int {
        match self {
            RatingScale::Ten => 1,
            RatingScale::Hundred => 10,
        }
    }

    /// What a score on this scale is divided by to stand on the scale from
    /// 0 to 10.
    pub fn divisor(&self) -> (d: u32)
        ensures
            d == self.divisor_of(),
    {
        match self {
            RatingScale::Ten => 1,
            RatingScale::Hundred => 10,
        }
    }
}

/// The rating that a score reported on `scale` stands for, if one was
/// reported.
pub open spec fn rating_on(scale: RatingScale, reported: Option<RealBits>) -> Option<
    CommunityRating,
> {
    match reported {
        Some(number) => Some(CommunityRating { reported: number, scale }),
        None => None,
    }
}

/// The rating that a score reported on `scale` stands for, if one was
/// reported. An absent score stays absent: it never becomes zero.
pub fn rate(scale: RatingScale, reported: Option<RealBits>) -> (r: Option<CommunityRating>)
    ensures
        r == rating_on(scale, reported),
{
    match reported {
        Some(number) => Some(CommunityRating { reported: number, scale }),
        None => None,
    }
}

/// A 64-bit count or year cut to 32 bits, as the records hold it.
pub open spec fn narrowed(n: Option<i64>) -> Option<i32> {
    match n {
        Some(v) => Some(v as i32),
        None => None,
    }
}

/// A 64-bit count or year cut to 32 bits, as the records hold it. A value
/// that fits is kept as it is.
pub fn narrow(n: Option<i64>) -> (r: Option<i32>)
    ensures
        r == narrowed(n),
{
    match n {
        Some(v) => Some(#[verifier::truncate] (v as i32)),
        None => None,
    }
}

/// One title as a search or a discovery lists it.
#[derive(Clone, Debug, PartialEq)]
pub struct SearchItem {
    pub item_id: String,
    pub item_type: String,
    pub title: String,
    pub poster_url: Option<String>,
    pub overview: Option<String>,
    pub community_rating: Option<CommunityRating>,
    pub community_rating_count: Option<i32>,
}

/// A list record as the contracts see it.
pub struct SearchItemView {
    pub item_id: Seq<char>,
    pub item_type: Seq<char>,
    pub title: Seq<char>,
    pub poster_url: Option<Seq<char>>,
    pub overview: Option<Seq<char>>,
    pub community_rating: Option<CommunityRating>,
    pub community_rating_count: Option<i32>,
}

impl View for SearchItem {
    type V = SearchItemView;

    open spec fn view(&self) -> SearchItemView {
        SearchItemView {
            item_id: self.item_id@,
            item_type: self.item_type@,
            title: self.title@,
            poster_url: text_view(self.poster_url),
            overview: text_view(self.overview),
            community_rating: self.community_rating,
            community_rating_count: self.community_rating_count,
        }
    }
}

/// One title in full: what a list shows of it, its year and its genres.
#[derive(Clone, Debug, PartialEq)]
pub struct DetailItem {
    pub item_id: String,
    pub item_type: String,
    pub title: String,
    pub poster_url: Option<String>,
    pub overview: Option<String>,
    pub year: Option<i32>,
    pub genres: Vec<String>,
    pub community_rating: Option<CommunityRating>,
    pub community_rating_count: Option<i32>,
}

/// A full record as the contracts see it.
pub struct DetailItemView {
    pub item_id: Seq<char>,
    pub item_type: Seq<char>,
    pub title: Seq<char>,
    pub poster_url: Option<Seq<char>>,
    pub overview: Option<Seq<char>>,
    pub year: Option<i32>,
    pub genres: Seq<Seq<char>>,
    pub community_rating: Option<CommunityRating>,
    pub community_rating_count: Option<i32>,
}

/// The characters of each text of a list.
pub open spec fn texts_view(texts: Seq<String>) -> Seq<Seq<char>> {
    texts.map_values(|s: String| s@)
}

/// Each record of a list as the contracts see it.
pub open spec fn search_items_view(items: Seq<SearchItem>) -> Seq<SearchItemView> {
    items.map_values(|item: SearchItem| item@)
}

impl View for DetailItem {
    type V = DetailItemView;

    open spec fn view(&self) -> DetailItemView {
        DetailItemView {
            item_id: self.item_id@,
            item_type: self.item_type@,
            title: self.title@,
            poster_url: text_view(self.poster_url),
            overview: text_view(self.overview),
            year: self.year,
            genres: texts_view(self.genres@),
            community_rating: self.community_rating,
            community_rating_count: self.community_rating_count,
        }
    }
}

/// A copy of a list of texts.
pub fn clone_texts(texts: &Vec<String>) -> (r: Vec<String>)
    ensures
        texts_view(r@) == texts_view(texts@),
{
    let mut out: Vec<String> = Vec::new();
    let mut i: usize = 0;
    while i < texts.len()
        invariant
            i <= texts.len(),
            out@.len() == i,
            forall|k: int| 0 <= k < i ==> (#[trigger] out@[k])@ == texts@[k]@,
        decreases texts.len() - i,
    {
        out.push(texts[i].clone());
        i = i + 1;
    }
    out
}

/// Why a call to a catalog failed. To the caller every kind is one opaque
/// message.
#[derive(Clone, Debug, PartialEq)]
pub enum CatalogError {
    /// Neither credential of the movie and TV catalog is configured.
    Config,
    /// The catalog could not be reached or answered with a failure.
    Transport(String),
    /// The catalog's answer is no JSON document, or one of another shape
    /// than the one that was asked for.
    Format(String),
}

/// What a missing configuration is answered with: the two settings of
/// which one is needed.
pub open spec fn config_message() -> Seq<char> {
    "Set TMDB_BEARER (v4) or TMDB_API_KEY (v3)"@
}

impl CatalogError {
    /// The message handed to the caller.
    pub open spec fn message_of(self) -> Seq<char> {
        match self {
            CatalogError::Config => config_message(),
            CatalogError::Transport(m) => m@,
            CatalogError::Format(m) => m@,
        }
    }

    /// The message handed to the caller: for a missing configuration the
    /// two settings of which one is needed, and else the text of the
    /// underlying failure as it came.
    pub fn message(&self) -> (m: String)
        ensures
            m@ == self.message_of(),
    {
        match self {
            CatalogError::Config => String::from_str("Set TMDB_BEARER (v4) or TMDB_API_KEY (v3)"),
            CatalogError::Transport(m) => m.clone(),
            CatalogError::Format(m) => m.clone(),
        }
    }
}

/// A request that is sent with POST and a JSON body.
#[derive(Clone, Debug, PartialEq)]
pub struct PostRequest {
    pub url: String,
    pub body: String,
}

/// A request that is sent with GET, accepting JSON, with an `Authorization`
/// header where one is given.
#[derive(Clone, Debug, PartialEq)]
pub struct GetRequest {
    pub url: String,
    pub authorization: Option<String>,
}

/// A catalog's answer as it came over HTTP: the status code and the body.
#[derive(Clone, Debug, PartialEq)]
pub struct CatalogResponse {
    pub status: u16,
    pub body: Vec<u8>,
}

/// What a catalog's answer amounts to before its content is looked at.
pub enum Answer {
    /// A success whose body is a JSON document.
    Document(Json),
    /// A status outside 200 to 299, whatever the body.
    Refused,
    /// A success whose body is no JSON text.
    Malformed,
}

/// The statuses that count as success: 200 to 299.
pub open spec fn is_success(status: u16) -> bool {
    200 <= status <= 299
}

/// What an answer amounts to: refused for its status first, then malformed
/// for its body, and else the document that the body holds.
pub open spec fn answer_of(status: u16, body: Seq<u8>) -> Answer {
    if !is_success(status) {
        Answer::Refused
    } else {
        match json_document(body) {
            Some(root) => Answer::Document(root),
            None => Answer::Malformed,
        }
    }
}

/// The message of a refused answer: its status code.
pub open spec fn status_message(status: u16) -> Seq<char> {
    "HTTP status "@ + decimal(status as int)
}

/// Whether `r` is the failure that an answer of this status and body calls
/// for; a document calls for none.
pub open spec fn is_failure_of<T>(r: Result<T, CatalogError>, status: u16, body: Seq<u8>) -> bool {
    match answer_of(status, body) {
        Answer::Document(_) => false,
        Answer::Refused => r matches Err(e) && e is Transport && e.message_of() == status_message(
            status,
        ),
        Answer::Malformed => r matches Err(e) && e is Format,
    }
}

/// The message of an answer that is a JSON document of another shape than
/// the one that was asked for.
pub open spec fn shape_message() -> Seq<char> {
    "unexpected shape of the answer"@
}

/// Whether `r` is the failure that a document of the wrong shape calls for:
/// a format error with the message for it.
pub open spec fn is_shape_failure<T>(r: Result<T, CatalogError>) -> bool {
    r matches Err(e) && e is Format && e.message_of() == shape_message()
}

/// The error for a document of the wrong shape.
pub fn shape_error() -> (e: CatalogError)
    ensures
        e is Format,
        e.message_of() == shape_message(),
{
    CatalogError::Format(String::from_str("unexpected shape of the answer"))
}

/// Reads a catalog's answer as a JSON document. An answer with a status
/// outside 200 to 299 gives a transport error that names the status; a
/// body that is no JSON text gives a format error that carries the
/// reader's message. What shape the document has is for the caller to
/// judge.
pub fn read_document(response: &CatalogResponse) -> (r: Result<serde_json::Value, CatalogError>)
    ensures
        match answer_of(response.status, response.body@) {
            Answer::Document(root) => r matches Ok(v) && json_of(v) == root,
            _ => is_failure_of(r, response.status, response.body@),
        },
{
    if response.status < 200 || response.status > 299 {
        let mut message = String::from_str("HTTP status ");
        let code = decimal_text(response.status as i64);
        message.append(code.as_str());
        return Err(CatalogError::Transport(message));
    }
    match parse_document(response.body.as_slice()) {
        Ok(root) => Ok(root),
        Err(e) => Err(CatalogError::Format(error_text(&e))),
    }
}

/// The text that a document holds, if it holds one.
pub fn optional_text(v: &serde_json::Value) -> (r: Option<String>)
    ensures
        text_view(r) == json_of(*v).text(),
{
    match text_of(v) {
        Some(s) => Some(s.to_owned()),
        None => None,
    }
}

/// The text that stands for one item of a list: the item itself where no
/// key is given, and else the item's member of that name. `None` where
/// that is no text.
pub open spec fn item_text(item: Json, key: Option<Seq<char>>) -> Option<Seq<char>> {
    match key {
        Some(k) => item.member(k).text(),
        None => item.text(),
    }
}

/// The texts that stand for the items of a list, in order; items that have
/// none are left out.
pub open spec fn texts_in(items: Seq<Json>, key: Option<Seq<char>>) -> Seq<Seq<char>>
    decreases items.len(),
{
    if items.len() == 0 {
        Seq::empty()
    } else {
        match item_text(items.last(), key) {
            Some(s) => texts_in(items.drop_last(), key).push(s),
            None => texts_in(items.drop_last(), key),
        }
    }
}

/// The texts of an array, as `texts_in` gives them; the empty list for a
/// document that is no array.
pub open spec fn texts_among(j: Json, key: Option<Seq<char>>) -> Seq<Seq<char>> {
    match j.items() {
        Some(items) => texts_in(items, key),
        None => Seq::empty(),
    }
}

/// The view of a key that may be absent.
pub open spec fn key_view(key: Option<&str>) -> Option<Seq<char>> {
    match key {
        Some(k) => Some(k@),
        None => None,
    }
}

/// Collects the texts of an array: each item that is a text where no key is
/// given, and else each item's member of that name that is a text. Other
/// items are left out; what is no array gives the empty list, never a
/// failure.
pub fn collect_texts(v: &serde_json::Value, key: Option<&str>) -> (r: Vec<String>)
    ensures
        texts_view(r@) == texts_among(json_of(*v), key_view(key)),
{
    let mut out: Vec<String> = Vec::new();
    match items_of(v) {
        None => out,
        Some(items) => {
            let ghost all = json_items(items@);
            let mut i: usize = 0;
            while i < items.len()
                invariant
                    i <= items.len(),
                    all == json_items(items@),
                    texts_view(out@) == texts_in(all.take(i as int), key_view(key)),
                decreases items.len() - i,
            {
                assert(all.take(i + 1).drop_last() =~= all.take(i as int));
                let picked = match key {
                    Some(k) => text_of(member(&items[i], k)),
                    None => text_of(&items[i]),
                };
                match picked {
                    Some(s) => {
                        let owned = s.to_owned();
                        out.push(owned);
                    },
                    None => {},
                }
                i = i + 1;
            }
            assert(all.take(i as int) =~= all);
            out
        },
    }
}

/// The first of three optional titles that is present and not empty; the
/// empty text where there is none.
pub open spec fn first_title(
    first: Option<Seq<char>>,
    second: Option<Seq<char>>,
    third: Option<Seq<char>>,
) -> Seq<char> {
    if first is Some && first->0.len() > 0 {
        first->0
    } else if second is Some && second->0.len() > 0 {
        second->0
    } else if third is Some && third->0.len() > 0 {
        third->0
    } else {
        Seq::empty()
    }
}

/// Whether a title is present and not empty.
fn is_usable(title: &Option<String>) -> (r: bool)
    ensures
        r == (text_view(*title) is Some && text_view(*title)->0.len() > 0),
{
    match title {
        Some(t) => !t.as_str().is_empty(),
        None => false,
    }
}

/// The title or the empty text.
pub open spec fn title_or_empty(title: Option<Seq<char>>) -> Seq<char> {
    match title {
        Some(t) => t,
        None => Seq::empty(),
    }
}

/// The title or the empty text.
pub fn or_empty(title: &Option<String>) -> (r: String)
    ensures
        r@ == title_or_empty(text_view(*title)),
{
    match title {
        Some(t) => t.clone(),
        None => String::new(),
    }
}

/// Picks the title of a record from three optional ones, in order of
/// preference: the first that is present and not empty, and the empty text
/// where there is none.
pub fn pick_title(first: &Option<String>, second: &Option<String>, third: &Option<String>) -> (r:
    String)
    ensures
        r@ == first_title(text_view(*first), text_view(*second), text_view(*third)),
{
    if is_usable(first) {
        or_empty(first)
    } else if is_usable(second) {
        or_empty(second)
    } else if is_usable(third) {
        or_empty(third)
    } else {
        String::new()
    }
}

} // verus!
