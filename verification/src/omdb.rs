//! What OMDb answers, and how it becomes the catalogue's own records.
use vstd::prelude::*;

use crate::model::{
    ErrorResponse, MovieDetail, MovieRating, ResponseResult, SearchResponse, SearchResult,
};
use crate::text::{parse_u32, parse_u32_spec};

verus! {

/// One hit of an OMDb title search, as OMDb writes it.
#[derive(Debug, Clone, PartialEq, Eq)]
pub struct OmdbSearchResult {
    pub title: String,
    pub year: String,
    pub imdb_id: String,
    pub result_type: String,
    pub poster_uri: String,
}

/// A successful OMDb title search; OMDb gives the number of hits as a string.
#[derive(Debug, Clone, PartialEq, Eq)]
pub struct OmdbSearchResponse {
    pub results: Vec<OmdbSearchResult>,
    pub total_results: String,
}

/// A failed OMDb request.
#[derive(Debug, Clone, PartialEq, Eq)]
pub struct OmdbErrorResponse {
    pub error: String,
}

/// What OMDb answers to a title search.
#[derive(Debug, Clone, PartialEq, Eq)]
pub enum OmdbResponse {
    Success(OmdbSearchResponse),
    Error(OmdbErrorResponse),
}

/// What OMDb answers when asked for one movie by its IMDb id.
#[derive(Debug, Clone, PartialEq, Eq)]
pub struct OmdbMovie {
    pub title: String,
    pub year: String,
    pub imdb_id: String,
    pub result_type: String,
    pub poster_uri: String,
    pub released: Option<String>,
    pub runtime: Option<String>,
    pub genre: Option<String>,
    pub director: Option<String>,
    pub writer: Option<String>,
    pub actors: Option<String>,
    pub plot: Option<String>,
    pub language: Option<String>,
    pub country: Option<String>,
    pub awards: Option<String>,
    pub metascore: Option<String>,
    pub imdb_rating: Option<String>,
    pub imdb_votes: Option<String>,
    pub dvd: Option<String>,
    pub box_office: Option<String>,
    pub production: Option<String>,
    pub website: Option<String>,
    pub ratings: Option<Vec<OmdbRating>>,
}

/// One rating in an OMDb movie.
#[derive(Debug, Clone, PartialEq, Eq)]
pub struct OmdbRating {
    pub source: String,
    pub value: String,
}

/// `rating` carries the same source and value as `omdb`.
pub open spec fn same_rating(omdb: OmdbRating, rating: MovieRating) -> bool {
    rating.source == omdb.source && rating.value == omdb.value
}

/// `hit` carries the same five fields as the OMDb hit `omdb`.
pub open spec fn same_search_result(omdb: OmdbSearchResult, hit: SearchResult) -> bool {
    &&& hit.title == omdb.title
    &&& hit.year == omdb.year
    &&& hit.imdb_id == omdb.imdb_id
    &&& hit.result_type == omdb.result_type
    &&& hit.poster_uri == omdb.poster_uri
}

/// `detail` carries every field of the OMDb movie `omdb`, its ratings
/// converted one for one, in order.
pub open spec fn same_detail(omdb: OmdbMovie, detail: MovieDetail) -> bool {
    &&& detail.title == omdb.title
    &&& detail.year == omdb.year
    &&& detail.imdb_id == omdb.imdb_id
    &&& detail.result_type == omdb.result_type
    &&& detail.poster_uri == omdb.poster_uri
    &&& detail.released == omdb.released
    &&& detail.runtime == omdb.runtime
    &&& detail.genre == omdb.genre
    &&& detail.director == omdb.director
    &&& detail.writer == omdb.writer
    &&& detail.actors == omdb.actors
    &&& detail.plot == omdb.plot
    &&& detail.language == omdb.language
    &&& detail.country == omdb.country
    &&& detail.awards == omdb.awards
    &&& detail.metascore == omdb.metascore
    &&& detail.imdb_rating == omdb.imdb_rating
    &&& detail.imdb_votes == omdb.imdb_votes
    &&& detail.dvd == omdb.dvd
    &&& detail.box_office == omdb.box_office
    &&& detail.production == omdb.production
    &&& detail.website == omdb.website
    &&& match (omdb.ratings, detail.ratings) {
        (None, None) => true,
        (Some(from), Some(to)) => {
            &&& to@.len() == from@.len()
            &&& forall|i: int| 0 <= i < from@.len() ==> same_rating(from@[i], #[trigger] to@[i])
        },
        _ => false,
    }
}

/// The search answer made of a successful OMDb search whose hit count parses.
pub open spec fn search_response_of(omdb: OmdbSearchResponse, res: SearchResponse) -> bool {
    &&& res.results@.len() == omdb.results@.len()
    &&& forall|i: int|
        0 <= i < omdb.results@.len() ==> same_search_result(
            omdb.results@[i],
            #[trigger] res.results@[i],
        )
    &&& Some(res.total_results) == parse_u32_spec(omdb.total_results@)
}

/// Converting an OMDb movie keeps each of its fields under the same name: the
/// catalogue's record holds OMDb's title, year, ids, poster, every optional
/// detail and the ratings, none moved to another field.
pub proof fn law_movie_keeps_fields(omdb: OmdbMovie, detail: MovieDetail)
    requires
        same_detail(omdb, detail),
    ensures
        detail.title == omdb.title,
        detail.year == omdb.year,
        detail.imdb_id == omdb.imdb_id,
        detail.result_type == omdb.result_type,
        detail.poster_uri == omdb.poster_uri,
        detail.released == omdb.released,
        detail.runtime == omdb.runtime,
        detail.genre == omdb.genre,
        detail.director == omdb.director,
        detail.writer == omdb.writer,
        detail.actors == omdb.actors,
        detail.plot == omdb.plot,
        detail.language == omdb.language,
        detail.country == omdb.country,
        detail.awards == omdb.awards,
        detail.metascore == omdb.metascore,
        detail.imdb_rating == omdb.imdb_rating,
        detail.imdb_votes == omdb.imdb_votes,
        detail.dvd == omdb.dvd,
        detail.box_office == omdb.box_office,
        detail.production == omdb.production,
        detail.website == omdb.website,
        omdb.ratings is None <==> detail.ratings is None,
        omdb.ratings is Some ==> detail.ratings.unwrap()@.len() == omdb.ratings.unwrap()@.len(),
        forall|i: int|
            omdb.ratings is Some && 0 <= i < omdb.ratings.unwrap()@.len() ==> {
                &&& (#[trigger] detail.ratings.unwrap()@[i]).source == omdb.ratings.unwrap()@[i].source
                &&& detail.ratings.unwrap()@[i].value == omdb.ratings.unwrap()@[i].value
            },
{
}

/// A successful search answer holds OMDb's hits in OMDb's order, each with its
/// title, year, IMDb id, type and poster under the same names, and the hit
/// count OMDb wrote, read as a number.
pub proof fn law_search_keeps_hits(omdb: OmdbSearchResponse, res: SearchResponse)
    requires
        search_response_of(omdb, res),
    ensures
        res.results@.len() == omdb.results@.len(),
        forall|i: int|
            0 <= i < omdb.results@.len() ==> {
                &&& (#[trigger] res.results@[i]).title == omdb.results@[i].title
                &&& res.results@[i].year == omdb.results@[i].year
                &&& res.results@[i].imdb_id == omdb.results@[i].imdb_id
                &&& res.results@[i].result_type == omdb.results@[i].result_type
                &&& res.results@[i].poster_uri == omdb.results@[i].poster_uri
            },
        forall|n: u32|
            omdb.total_results@ == crate::text::decimal(n as nat) ==> res.total_results == n,
{
    assert forall|n: u32| omdb.total_results@ == crate::text::decimal(n as nat) implies res.total_results == n by {
        crate::text::lemma_parse_format_roundtrip(n);
    }
}

impl OmdbSearchResult {
    /// The catalogue's form of this hit.
    pub fn into(self) -> (r: SearchResult)
        ensures
            same_search_result(self, r),
            r.title == self.title,
            r.year == self.year,
            r.imdb_id == self.imdb_id,
            r.result_type == self.result_type,
            r.poster_uri == self.poster_uri,
    {
        SearchResult {
            title: self.title,
            year: self.year,
            imdb_id: self.imdb_id,
            result_type: self.result_type,
            poster_uri: self.poster_uri,
        }
    }
}

impl OmdbRating {
    /// The catalogue's form of this rating.
    pub fn into(self) -> (r: MovieRating)
        ensures
            same_rating(self, r),
            r.source == self.source,
            r.value == self.value,
    {
        MovieRating { source: self.source, value: self.value }
    }
}

fn convert_ratings(ratings: Vec<OmdbRating>) -> (r: Vec<MovieRating>)
    ensures
        r@.len() == ratings@.len(),
        forall|i: int| 0 <= i < ratings@.len() ==> same_rating(ratings@[i], #[trigger] r@[i]),
{
    let mut out: Vec<MovieRating> = Vec::new();
    let mut rest = ratings;
    let ghost original = ratings@;
    while rest.len() > 0
        invariant
            out@.len() + rest@.len() == original.len(),
            rest@ =~= original.subrange(out@.len() as int, original.len() as int),
            forall|i: int| 0 <= i < out@.len() ==> same_rating(original[i], #[trigger] out@[i]),
        decreases rest@.len(),
    {
        let rating = rest.remove(0);
        out.push(rating.into());
    }
    out
}

impl OmdbMovie {
    /// The catalogue's form of this movie: every field kept, the ratings
    /// converted one for one.
    pub fn into(self) -> (r: MovieDetail)
        ensures
            same_detail(self, r),
            r.title == self.title,
            r.year == self.year,
            r.imdb_id == self.imdb_id,
            r.result_type == self.result_type,
            r.poster_uri == self.poster_uri,
            r.released == self.released,
            r.runtime == self.runtime,
            r.genre == self.genre,
            r.director == self.director,
            r.writer == self.writer,
            r.actors == self.actors,
            r.plot == self.plot,
            r.language == self.language,
            r.country == self.country,
            r.awards == self.awards,
            r.metascore == self.metascore,
            r.imdb_rating == self.imdb_rating,
            r.imdb_votes == self.imdb_votes,
            r.dvd == self.dvd,
            r.box_office == self.box_office,
            r.production == self.production,
            r.website == self.website,
            self.ratings is None <==> r.ratings is None,
    {
        let ratings = match self.ratings {
            Some(v) => Some(convert_ratings(v)),
            None => None,
        };
        MovieDetail {
            title: self.title,
            year: self.year,
            imdb_id: self.imdb_id,
            result_type: self.result_type,
            poster_uri: self.poster_uri,
            released: self.released,
            runtime: self.runtime,
            genre: self.genre,
            director: self.director,
            writer: self.writer,
            actors: self.actors,
            plot: self.plot,
            language: self.language,
            country: self.country,
            awards: self.awards,
            metascore: self.metascore,
            imdb_rating: self.imdb_rating,
            imdb_votes: self.imdb_votes,
            dvd: self.dvd,
            box_office: self.box_office,
            production: self.production,
            website: self.website,
            ratings,
        }
    }
}

impl ErrorResponse {
    /// The API error carrying OMDb's error message.
    pub fn from(item: OmdbErrorResponse) -> (r: ErrorResponse)
        ensures
            r.err == item.error,
    {
        ErrorResponse { err: item.error }
    }
}

fn convert_hits(hits: Vec<OmdbSearchResult>) -> (r: Vec<SearchResult>)
    ensures
        r@.len() == hits@.len(),
        forall|i: int| 0 <= i < hits@.len() ==> same_search_result(hits@[i], #[trigger] r@[i]),
{
    let mut out: Vec<SearchResult> = Vec::new();
    let mut rest = hits;
    let ghost original = hits@;
    while rest.len() > 0
        invariant
            out@.len() + rest@.len() == original.len(),
            rest@ =~= original.subrange(out@.len() as int, original.len() as int),
            forall|i: int|
                0 <= i < out@.len() ==> same_search_result(original[i], #[trigger] out@[i]),
        decreases rest@.len(),
    {
        let hit = rest.remove(0);
        out.push(hit.into());
    }
    out
}

impl SearchResponse {
    /// The search answer of a successful OMDb search: the hits converted one
    /// for one and the hit count read as a number. OMDb's count must be a
    /// decimal `u32`.
    pub fn from(item: OmdbSearchResponse) -> (r: SearchResponse)
        requires
            parse_u32_spec(item.total_results@) is Some,
        ensures
            search_response_of(item, r),
            r.results@.len() == item.results@.len(),
            forall|i: int|
                0 <= i < item.results@.len() ==> {
                    &&& (#[trigger] r.results@[i]).title == item.results@[i].title
                    &&& r.results@[i].year == item.results@[i].year
                    &&& r.results@[i].imdb_id == item.results@[i].imdb_id
                    &&& r.results@[i].result_type == item.results@[i].result_type
                    &&& r.results@[i].poster_uri == item.results@[i].poster_uri
                },
            Some(r.total_results) == parse_u32_spec(item.total_results@),
    {
        let total = parse_u32(item.total_results.as_str());
        let total_results = match total {
            Some(n) => n,
            None => 0,
        };
        SearchResponse { results: convert_hits(item.results), total_results }
    }
}

impl ResponseResult<SearchResponse> {
    /// The API answer to a title search, made of OMDb's answer.
    pub fn from(value: OmdbResponse) -> (r: ResponseResult<SearchResponse>)
        requires
            value matches OmdbResponse::Success(s) ==> parse_u32_spec(s.total_results@) is Some,
        ensures
            match (value, r) {
                (OmdbResponse::Success(s), ResponseResult::Response(res)) => search_response_of(s, res),
                (OmdbResponse::Error(e), ResponseResult::ErrorResponse(err)) => err.err == e.error,
                _ => false,
            },
    {
        match value {
            OmdbResponse::Success(res) => ResponseResult::Response(SearchResponse::from(res)),
            OmdbResponse::Error(err) => ResponseResult::ErrorResponse(ErrorResponse::from(err)),
        }
    }
}

} // verus!

verus! {

/// The OMDb request for a title search.
pub open spec fn search_uri_spec(query: Seq<char>) -> Seq<char> {
    "http://www.omdbapi.com/?s="@ + query
}

/// The OMDb request for the movie with an IMDb id.
pub open spec fn movie_uri_spec(imdb_id: Seq<char>) -> Seq<char> {
    "http://www.omdbapi.com/?i="@ + imdb_id
}

/// An OMDb request with the API key appended.
pub open spec fn keyed_uri_spec(uri: Seq<char>, api_key: Seq<char>) -> Seq<char> {
    uri + "&apiKey="@ + api_key
}

/// The OMDb movie request is the fixed prefix followed by the whole IMDb id,
/// verbatim, whatever its length.
pub proof fn law_movie_uri_holds_whole_id(imdb_id: Seq<char>, r: Seq<char>)
    requires
        r == movie_uri_spec(imdb_id),
    ensures
        r.len() == "http://www.omdbapi.com/?i="@.len() + imdb_id.len(),
        r.take("http://www.omdbapi.com/?i="@.len() as int) == "http://www.omdbapi.com/?i="@,
        r.skip("http://www.omdbapi.com/?i="@.len() as int) == imdb_id,
{
    assert(r.take("http://www.omdbapi.com/?i="@.len() as int) =~= "http://www.omdbapi.com/?i="@);
    assert(r.skip("http://www.omdbapi.com/?i="@.len() as int) =~= imdb_id);
}

/// The OMDb search request is the fixed prefix followed by the whole query,
/// verbatim.
pub proof fn law_search_uri_holds_whole_query(query: Seq<char>, r: Seq<char>)
    requires
        r == search_uri_spec(query),
    ensures
        r.len() == "http://www.omdbapi.com/?s="@.len() + query.len(),
        r.take("http://www.omdbapi.com/?s="@.len() as int) == "http://www.omdbapi.com/?s="@,
        r.skip("http://www.omdbapi.com/?s="@.len() as int) == query,
{
    assert(r.take("http://www.omdbapi.com/?s="@.len() as int) =~= "http://www.omdbapi.com/?s="@);
    assert(r.skip("http://www.omdbapi.com/?s="@.len() as int) =~= query);
}

/// A keyed request keeps the request whole, then `&apiKey=`, then the whole key.
pub proof fn law_keyed_uri_keeps_request_and_key(uri: Seq<char>, api_key: Seq<char>, r: Seq<char>)
    requires
        r == keyed_uri_spec(uri, api_key),
    ensures
        r.len() == uri.len() + "&apiKey="@.len() + api_key.len(),
        r.take(uri.len() as int) == uri,
        r.subrange(uri.len() as int, (uri.len() + "&apiKey="@.len()) as int) == "&apiKey="@,
        r.skip((uri.len() + "&apiKey="@.len()) as int) == api_key,
{
    assert(r.take(uri.len() as int) =~= uri);
    assert(r.subrange(uri.len() as int, (uri.len() + "&apiKey="@.len()) as int) =~= "&apiKey="@);
    assert(r.skip((uri.len() + "&apiKey="@.len()) as int) =~= api_key);
}

/// The OMDb request that searches titles for `query`.
pub fn search_uri(query: &str) -> (r: String)
    ensures
        r@ == search_uri_spec(query@),
        r@ == "http://www.omdbapi.com/?s="@ + query@,
{
    let mut r = String::from_str("http://www.omdbapi.com/?s=");
    r.append(query);
    r
}

/// The OMDb request for the movie with IMDb id `imdb_id`.
pub fn movie_uri(imdb_id: &str) -> (r: String)
    ensures
        r@ == movie_uri_spec(imdb_id@),
        r@ == "http://www.omdbapi.com/?i="@ + imdb_id@,
{
    let mut r = String::from_str("http://www.omdbapi.com/?i=");
    r.append(imdb_id);
    r
}

/// `uri` with the OMDb API key appended as a further query parameter.
pub fn keyed_uri(uri: &str, api_key: &str) -> (r: String)
    ensures
        r@ == keyed_uri_spec(uri@, api_key@),
        r@ == uri@ + "&apiKey="@ + api_key@,
{
    let mut r = String::from_str(uri);
    r.append("&apiKey=");
    r.append(api_key);
    r
}

} // verus!
