//! The decisions of the JSON API: which query to run, and what to answer
//! with what the database and OMDb returned.
use vstd::prelude::*;

use crate::model::{
    outcome_response, AddMovieRequest, AddMovieResponse, ErrorResponse, Movie, ResponseResult,
};
use crate::sql::{all_text, insert_query, JsonRecord, SqlQuery, strings_view};
use crate::text::{decimal, format_u32, lemma_parse_format_roundtrip, parse_u32_spec};

verus! {

/// Most movies one page of the listing holds, and how many it holds when the
/// caller names no count.
pub const MAX_PAGE_SIZE: u32 = 100;

/// The page size and offset of a listing: the count asked for, at most
/// `MAX_PAGE_SIZE` and `MAX_PAGE_SIZE` when none is asked for; the offset asked
/// for, 0 when none is.
pub fn page_bounds(count: Option<u32>, after: Option<u32>) -> (res: (u32, u32))
    ensures
        res.0 == (match count {
            Some(c) => if c < MAX_PAGE_SIZE {
                c
            } else {
                MAX_PAGE_SIZE
            },
            None => MAX_PAGE_SIZE,
        }),
        res.1 == (match after {
            Some(a) => a,
            None => 0,
        }),
        res.0 <= MAX_PAGE_SIZE,
{
    let c: u32 = match count {
        Some(c) => c,
        None => MAX_PAGE_SIZE,
    };
    let c: u32 = if c < MAX_PAGE_SIZE {
        c
    } else {
        MAX_PAGE_SIZE
    };
    let a: u32 = match after {
        Some(a) => a,
        None => 0,
    };
    (c, a)
}

/// The message of the answer to a lookup of a movie id that is not stored.
pub open spec fn not_found_message(id: u32) -> Seq<char> {
    "Couldn't find movie with id = "@ + decimal(id as nat)
}

/// The answer to looking up the movie with row id `id`: the movie when the
/// database found it, an error naming the id when it found none, and the
/// database's error when the lookup failed.
pub fn movie_lookup(found: Result<Option<Movie>, String>, id: u32) -> (r: ResponseResult<Movie>)
    ensures
        match found {
            Ok(Some(m)) => r == ResponseResult::Response(m),
            Ok(None) => r matches ResponseResult::ErrorResponse(e) && e.err@ == not_found_message(
                id,
            ),
            Err(e) => r == ResponseResult::<Movie>::ErrorResponse(ErrorResponse { err: e }),
        },
{
    match found {
        Ok(Some(m)) => ResponseResult::Response(m),
        Ok(None) => {
            let digits = format_u32(id);
            let mut err = String::from_str("Couldn't find movie with id = ");
            err.append(digits.as_str());
            ResponseResult::ErrorResponse(ErrorResponse { err })
        },
        Err(e) => ResponseResult::ErrorResponse(ErrorResponse { err: e }),
    }
}

/// The statement that deletes the movie with a row id and returns its id and title.
pub fn delete_movie_sql() -> (r: String)
    ensures
        r@ == "delete from movie where id = ? returning id as movie_id, title"@,
{
    String::from_str("delete from movie where id = ? returning id as movie_id, title")
}

/// The statement that flips the watched flag of the movie with a row id and
/// returns its id and new flag.
pub fn toggle_watched_sql() -> (r: String)
    ensures
        r@ == "update movie set watched = not watched where id = ? returning id as movie_id, watched"@,
{
    String::from_str(
        "update movie set watched = not watched where id = ? returning id as movie_id, watched",
    )
}

/// The query that lists a page of movies in row-id order: page size, then offset.
pub fn list_movies_sql() -> (r: String)
    ensures
        r@ == "select * from movie order by id limit ? offset ?"@,
{
    String::from_str("select * from movie order by id limit ? offset ?")
}

/// The query that reads the movie with a row id.
pub fn movie_by_id_sql() -> (r: String)
    ensures
        r@ == "select * from movie where id = ?"@,
{
    String::from_str("select * from movie where id = ?")
}

/// The message of the answer to adding a movie that is already stored.
pub open spec fn already_exists_message(imdb_id: Seq<char>) -> Seq<char> {
    "movie already exists: "@ + imdb_id
}

/// The not-found message names the id asked for: after its fixed text comes
/// the id in base ten, which reads back as that very id.
pub proof fn law_not_found_names_the_id(id: u32, message: Seq<char>)
    requires
        message == not_found_message(id),
    ensures
        message.take("Couldn't find movie with id = "@.len() as int)
            == "Couldn't find movie with id = "@,
        parse_u32_spec(message.skip("Couldn't find movie with id = "@.len() as int)) == Some(id),
{
    assert(message.take("Couldn't find movie with id = "@.len() as int)
        =~= "Couldn't find movie with id = "@);
    assert(message.skip("Couldn't find movie with id = "@.len() as int) =~= decimal(id as nat));
    lemma_parse_format_roundtrip(id);
}

/// The already-exists message carries the whole IMDb id after its fixed text.
pub proof fn law_already_exists_names_the_id(imdb_id: Seq<char>, message: Seq<char>)
    requires
        message == already_exists_message(imdb_id),
    ensures
        message.take("movie already exists: "@.len() as int) == "movie already exists: "@,
        message.skip("movie already exists: "@.len() as int) == imdb_id,
{
    assert(message.take("movie already exists: "@.len() as int) =~= "movie already exists: "@);
    assert(message.skip("movie already exists: "@.len() as int) =~= imdb_id);
}

/// The query that counts the stored movies with the given IMDb id.
pub open spec fn count_query_sql() -> Seq<char> {
    "select count(*) from movie where imdb_id = ?"@
}

/// Where adding a movie stands.
#[derive(Debug, Clone, PartialEq, Eq)]
pub enum AddMovieState {
    /// The count of stored movies with this IMDb id was asked for.
    AwaitingCount { imdb_id: String },
    /// The movie was asked of OMDb.
    AwaitingMovie,
    /// The insert statement was sent.
    AwaitingInsert,
    /// The answer was given.
    Finished,
}

/// What came back from the outside.
pub enum AddMovieEvent {
    /// The number of stored movies with the requested IMDb id.
    Counted(i64),
    /// The movie OMDb returned, in its serialized form.
    MovieFetched(JsonRecord),
    /// The outcome of the insert: the new row's id and title, or the error.
    Inserted(Result<AddMovieResponse, String>),
}

/// What to do next.
#[derive(Debug, Clone, PartialEq, Eq)]
pub enum AddMovieAction {
    /// Run this counting query and report `Counted`.
    CountExisting(SqlQuery),
    /// Fetch the movie with this IMDb id from OMDb and report `MovieFetched`.
    FetchMovie(String),
    /// Run this insert and report `Inserted`.
    Insert(SqlQuery),
    /// Answer the request.
    Reply(ResponseResult<AddMovieResponse>),
}

/// Whether `event` is the report that `state` waits for.
pub open spec fn expects(state: AddMovieState, event: AddMovieEvent) -> bool {
    match (state, event) {
        (AddMovieState::AwaitingCount { .. }, AddMovieEvent::Counted(_)) => true,
        (AddMovieState::AwaitingMovie, AddMovieEvent::MovieFetched(rec)) => all_text(rec@),
        (AddMovieState::AwaitingInsert, AddMovieEvent::Inserted(_)) => true,
        _ => false,
    }
}

/// Adding a movie never gets stuck: each state the machine enters accepts the
/// report of the action it was given. Waiting for the count accepts every
/// count, waiting for the movie accepts every movie whose members are all
/// strings, and waiting for the insert accepts its outcome, success or failure.
pub proof fn law_states_accept_their_reports(
    imdb_id: String,
    n: i64,
    rec: JsonRecord,
    outcome: Result<AddMovieResponse, String>,
)
    ensures
        expects(AddMovieState::AwaitingCount { imdb_id }, AddMovieEvent::Counted(n)),
        all_text(rec@) ==> expects(AddMovieState::AwaitingMovie, AddMovieEvent::MovieFetched(rec)),
        expects(AddMovieState::AwaitingInsert, AddMovieEvent::Inserted(outcome)),
{
}

impl AddMovieState {
    /// Whether `event` is the report this state waits for, with a movie whose
    /// every member is a string.
    pub fn expects(&self, event: &AddMovieEvent) -> (r: bool)
        ensures
            r == expects(*self, *event),
    {
        match (self, event) {
            (AddMovieState::AwaitingCount { .. }, AddMovieEvent::Counted(_)) => true,
            (AddMovieState::AwaitingMovie, AddMovieEvent::MovieFetched(rec)) => rec.all_text(),
            (AddMovieState::AwaitingInsert, AddMovieEvent::Inserted(_)) => true,
            _ => false,
        }
    }
}

/// Begins adding the movie of `request`: count the stored movies with its
/// IMDb id.
pub fn add_movie_start(request: AddMovieRequest) -> (res: (AddMovieState, AddMovieAction))
    ensures
        res.0 == (AddMovieState::AwaitingCount { imdb_id: request.imdb_id }),
        res.1 matches AddMovieAction::CountExisting(q) && q.sql@ == count_query_sql()
            && strings_view(q.binds@) == seq![request.imdb_id@],
{
    let binds = vec![request.imdb_id.clone()];
    assert(strings_view(binds@) =~= seq![request.imdb_id@]);
    let q = SqlQuery { sql: String::from_str("select count(*) from movie where imdb_id = ?"), binds };
    (AddMovieState::AwaitingCount { imdb_id: request.imdb_id }, AddMovieAction::CountExisting(q))
}

/// One step of adding a movie. A count other than 0 answers that the movie
/// already exists and ends; a count of 0 fetches the movie from OMDb; the
/// fetched movie is inserted with its columns and values in sorted order; the
/// insert's outcome is the answer.
pub fn add_movie_step(state: AddMovieState, event: AddMovieEvent) -> (res: (
    AddMovieState,
    AddMovieAction,
))
    requires
        expects(state, event),
    ensures
        match (state, event) {
            (AddMovieState::AwaitingCount { imdb_id }, AddMovieEvent::Counted(n)) => if n == 0 {
                res.0 == AddMovieState::AwaitingMovie && res.1 == AddMovieAction::FetchMovie(
                    imdb_id,
                )
            } else {
                &&& res.0 == AddMovieState::Finished
                &&& res.1 matches AddMovieAction::Reply(ResponseResult::ErrorResponse(e))
                &&& e.err@ == already_exists_message(imdb_id@)
            },
            (AddMovieState::AwaitingMovie, AddMovieEvent::MovieFetched(rec)) => {
                &&& res.0 == AddMovieState::AwaitingInsert
                &&& res.1 matches AddMovieAction::Insert(q)
                &&& q.sql@ == crate::sql::insert_sql(
                    crate::sql::itertools_sorted(crate::sql::field_names(rec@)),
                )
                &&& strings_view(q.binds@) == crate::sql::bound_values(
                    rec@,
                    crate::sql::itertools_sorted(crate::sql::field_names(rec@)),
                )
                &&& crate::sql::itertools_sorted(crate::sql::field_names(rec@)).to_multiset()
                    == crate::sql::field_names(rec@).to_multiset()
                &&& crate::sql::itertools_sorted(crate::sql::field_names(rec@)).no_duplicates()
                &&& forall|i: int, j: int|
                    0 <= i < j < crate::sql::itertools_sorted(crate::sql::field_names(rec@)).len()
                        ==> crate::sql::bytes_le(
                        vstd::utf8::encode_utf8(
                            crate::sql::itertools_sorted(crate::sql::field_names(rec@))[i],
                        ),
                        vstd::utf8::encode_utf8(
                            crate::sql::itertools_sorted(crate::sql::field_names(rec@))[j],
                        ),
                    )
            },
            (AddMovieState::AwaitingInsert, AddMovieEvent::Inserted(outcome)) => {
                &&& res.0 == AddMovieState::Finished
                &&& res.1 == AddMovieAction::Reply(outcome_response(outcome))
            },
            _ => false,
        },
{
    match (state, event) {
        (AddMovieState::AwaitingCount { imdb_id }, AddMovieEvent::Counted(n)) => {
            if n == 0 {
                (AddMovieState::AwaitingMovie, AddMovieAction::FetchMovie(imdb_id))
            } else {
                let mut err = String::from_str("movie already exists: ");
                err.append(imdb_id.as_str());
                (
                    AddMovieState::Finished,
                    AddMovieAction::Reply(ResponseResult::ErrorResponse(ErrorResponse { err })),
                )
            }
        },
        (AddMovieState::AwaitingMovie, AddMovieEvent::MovieFetched(rec)) => {
            let q = insert_query(&rec);
            (AddMovieState::AwaitingInsert, AddMovieAction::Insert(q))
        },
        (AddMovieState::AwaitingInsert, AddMovieEvent::Inserted(outcome)) => {
            (AddMovieState::Finished, AddMovieAction::Reply(ResponseResult::from_outcome(outcome)))
        },
        (s, _) => {
            assert(false);
            (s, AddMovieAction::FetchMovie(String::new()))
        },
    }
}

} // verus!
