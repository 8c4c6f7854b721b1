//! The records the service stores and the answers its API gives.
use vstd::prelude::*;

verus! {

/// Answer to deleting a movie: the id and title of the removed row.
#[derive(Debug, Clone, PartialEq, Eq)]
pub struct DeleteResponse {
    pub movie_id: i32,
    pub title: String,
}

/// The error half of every API answer.
#[derive(Debug, Clone, PartialEq, Eq)]
pub struct ErrorResponse {
    pub err: String,
}

/// Answer to toggling the watched flag: the row's id and its new flag.
#[derive(Debug, Clone, PartialEq, Eq)]
pub struct WatchedToggled {
    pub movie_id: i32,
    pub watched: bool,
}

/// Answer to adding a movie: the id and title of the inserted row.
#[derive(Debug, Clone, PartialEq, Eq)]
pub struct AddMovieResponse {
    pub movie_id: i32,
    pub title: String,
}

/// Every API answer: either the requested value or an error message.
#[derive(Debug, Clone, PartialEq, Eq)]
pub enum ResponseResult<T> {
    Response(T),
    ErrorResponse(ErrorResponse),
}

/// Body of a request to add the movie with the given IMDb id.
#[derive(Debug, Clone, PartialEq, Eq)]
pub struct AddMovieRequest {
    pub imdb_id: String,
}

/// A movie of the catalogue: its row id, whether it was watched, when it was
/// added, and what OMDb says of it.
#[derive(Debug, Clone, PartialEq, Eq)]
pub struct Movie {
    pub id: u32,
    pub watched: bool,
    pub added: String,
    pub detail: MovieDetail,
}

/// What OMDb reports of a movie, as the catalogue stores it.
#[derive(Debug, Clone, PartialEq, Eq)]
pub struct MovieDetail {
    pub title: String,
    pub year: String,
    pub imdb_id: String,
    pub result_type: String,
    pub poster_uri: String,
    pub released: Option<String>,
    pub runtime: Option<String>,
    pub genre: Option<String>,
    pub director: Option<String>,
    pub writer: Option<String>,
    pub actors: Option<String>,
    pub plot: Option<String>,
    pub language: Option<String>,
    pub country: Option<String>,
    pub awards: Option<String>,
    pub metascore: Option<String>,
    pub imdb_rating: Option<String>,
    pub imdb_votes: Option<String>,
    pub dvd: Option<String>,
    pub box_office: Option<String>,
    pub production: Option<String>,
    pub website: Option<String>,
    pub ratings: Option<Vec<MovieRating>>,
}

/// One rating of a movie: who gave it and what it is.
#[derive(Debug, Clone, PartialEq, Eq)]
pub struct MovieRating {
    pub source: String,
    pub value: String,
}

/// One hit of an OMDb title search.
#[derive(Debug, Clone, PartialEq, Eq)]
pub struct SearchResult {
    pub title: String,
    pub year: String,
    pub imdb_id: String,
    pub result_type: String,
    pub poster_uri: String,
}

/// Answer to a title search: the hits of this page and how many there are in all.
#[derive(Debug, Clone, PartialEq, Eq)]
pub struct SearchResponse {
    pub results: Vec<SearchResult>,
    pub total_results: u32,
}

/// Answer to listing the catalogue.
#[derive(Debug, Clone, PartialEq, Eq)]
pub struct GetMoviesResponse {
    pub results: Vec<Movie>,
}

/// The answer for an operation that either produced a value or failed with a
/// message: the value, or an error carrying the message.
pub open spec fn outcome_response<T>(outcome: Result<T, String>) -> ResponseResult<T> {
    match outcome {
        Ok(v) => ResponseResult::Response(v),
        Err(e) => ResponseResult::ErrorResponse(ErrorResponse { err: e }),
    }
}

/// An operation's success is answered with its value and its failure with an
/// error carrying its message, unchanged.
pub proof fn law_outcome_answer<T>(outcome: Result<T, String>, r: ResponseResult<T>)
    requires
        r == outcome_response(outcome),
    ensures
        outcome matches Ok(v) ==> r == ResponseResult::<T>::Response(v),
        outcome matches Err(e) ==> r == ResponseResult::<T>::ErrorResponse(ErrorResponse { err: e }),
{
}

impl<T> ResponseResult<T> {
    /// The answer for an operation that either produced a value or failed with
    /// a message, as the delete, toggle, list and insert handlers give it.
    pub fn from_outcome(outcome: Result<T, String>) -> (r: Self)
        ensures
            r == outcome_response(outcome),
    {
        match outcome {
            Ok(v) => ResponseResult::Response(v),
            Err(e) => ResponseResult::ErrorResponse(ErrorResponse { err: e }),
        }
    }

    /// The value of a successful answer.
    pub fn into_response(self) -> (r: Option<T>)
        ensures
            r == (match self {
                ResponseResult::Response(v) => Some(v),
                ResponseResult::ErrorResponse(_) => None,
            }),
    {
        match self {
            ResponseResult::Response(v) => Some(v),
            ResponseResult::ErrorResponse(_) => None,
        }
    }
}

} // verus!
