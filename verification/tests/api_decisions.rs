use my_blockbuster::api::{
    add_movie_start, add_movie_step, delete_movie_sql, list_movies_sql, movie_by_id_sql,
    movie_lookup, page_bounds, toggle_watched_sql, AddMovieAction, AddMovieEvent,
    AddMovieState,
};
use my_blockbuster::model::{AddMovieRequest, AddMovieResponse, ErrorResponse, Movie, MovieDetail, ResponseResult};
use my_blockbuster::sql::{JsonField, JsonRecord};

fn detail() -> MovieDetail {
    MovieDetail {
        title: String::from("Heat"),
        year: String::from("1995"),
        imdb_id: String::from("tt0113277"),
        result_type: String::from("movie"),
        poster_uri: String::from("p"),
        released: None,
        runtime: None,
        genre: None,
        director: None,
        writer: None,
        actors: None,
        plot: None,
        language: None,
        country: None,
        awards: None,
        metascore: None,
        imdb_rating: None,
        imdb_votes: None,
        dvd: None,
        box_office: None,
        production: None,
        website: None,
        ratings: None,
    }
}

#[test]
fn page_defaults_and_cap() {
    assert_eq!(page_bounds(None, None), (100, 0));
    assert_eq!(page_bounds(Some(10), Some(20)), (10, 20));
    assert_eq!(page_bounds(Some(100), None), (100, 0));
    assert_eq!(page_bounds(Some(5000), Some(7)), (100, 7));
    assert_eq!(page_bounds(Some(0), None), (0, 0));
}

#[test]
fn lookup_found_not_found_and_failed() {
    let m = Movie { id: 4, watched: false, added: String::from("2024-01-01"), detail: detail() };
    assert_eq!(movie_lookup(Ok(Some(m.clone())), 4), ResponseResult::Response(m));
    assert_eq!(
        movie_lookup(Ok(None), 42),
        ResponseResult::ErrorResponse(ErrorResponse { err: String::from("Couldn't find movie with id = 42") })
    );
    assert_eq!(
        movie_lookup(Err(String::from("database is locked")), 42),
        ResponseResult::ErrorResponse(ErrorResponse { err: String::from("database is locked") })
    );
}

fn start(id: &str) -> AddMovieState {
    let (state, action) = add_movie_start(AddMovieRequest { imdb_id: id.to_string() });
    match action {
        AddMovieAction::CountExisting(q) => {
            assert_eq!(q.sql, "select count(*) from movie where imdb_id = ?");
            assert_eq!(q.binds, vec![id.to_string()]);
        }
        _ => panic!("expected the count query"),
    }
    state
}

#[test]
fn existing_movie_is_refused() {
    let state = start("tt0113277");
    let (state, action) = add_movie_step(state, AddMovieEvent::Counted(1));
    assert_eq!(state, AddMovieState::Finished);
    assert_eq!(
        action,
        AddMovieAction::Reply(ResponseResult::ErrorResponse(ErrorResponse {
            err: String::from("movie already exists: tt0113277")
        }))
    );
}

#[test]
fn new_movie_is_fetched_inserted_and_answered() {
    let state = start("tt0113277");
    let (state, action) = add_movie_step(state, AddMovieEvent::Counted(0));
    assert_eq!(state, AddMovieState::AwaitingMovie);
    assert_eq!(action, AddMovieAction::FetchMovie(String::from("tt0113277")));
    let rec = JsonRecord::from_fields(vec![
        JsonField { name: String::from("year"), text: Some(String::from("1995")) },
        JsonField { name: String::from("title"), text: Some(String::from("Heat")) },
    ])
    .unwrap();
    let event = AddMovieEvent::MovieFetched(rec);
    assert!(state.expects(&event));
    let (state, action) = add_movie_step(state, event);
    assert_eq!(state, AddMovieState::AwaitingInsert);
    match action {
        AddMovieAction::Insert(q) => {
            assert_eq!(q.sql, "insert into movie(title, year) values (?, ?) returning id as movie_id, title");
            assert_eq!(q.binds, vec!["Heat", "1995"]);
        }
        _ => panic!("expected the insert"),
    }
    let ok = AddMovieResponse { movie_id: 9, title: String::from("Heat") };
    let (state, action) = add_movie_step(state, AddMovieEvent::Inserted(Ok(ok.clone())));
    assert_eq!(state, AddMovieState::Finished);
    assert_eq!(action, AddMovieAction::Reply(ResponseResult::Response(ok)));
}

#[test]
fn failed_insert_is_answered_with_its_error() {
    let (state, action) = add_movie_step(AddMovieState::AwaitingInsert, AddMovieEvent::Inserted(Err(String::from("UNIQUE constraint failed"))));
    assert_eq!(state, AddMovieState::Finished);
    assert_eq!(
        action,
        AddMovieAction::Reply(ResponseResult::ErrorResponse(ErrorResponse { err: String::from("UNIQUE constraint failed") }))
    );
}

#[test]
fn states_accept_only_their_event() {
    let rec = JsonRecord::from_fields(vec![JsonField { name: String::from("plot"), text: None }]).unwrap();
    assert!(!AddMovieState::AwaitingMovie.expects(&AddMovieEvent::MovieFetched(rec)));
    assert!(!AddMovieState::Finished.expects(&AddMovieEvent::Counted(0)));
    assert!(AddMovieState::AwaitingCount { imdb_id: String::from("x") }.expects(&AddMovieEvent::Counted(3)));
}

#[test]
fn query_texts() {
    assert_eq!(delete_movie_sql(), "delete from movie where id = ? returning id as movie_id, title");
    assert_eq!(
        toggle_watched_sql(),
        "update movie set watched = not watched where id = ? returning id as movie_id, watched"
    );
    assert_eq!(list_movies_sql(), "select * from movie order by id limit ? offset ?");
    assert_eq!(movie_by_id_sql(), "select * from movie where id = ?");
}
