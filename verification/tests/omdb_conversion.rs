use my_blockbuster::model::{ErrorResponse, MovieRating, ResponseResult, SearchResponse, SearchResult};
use my_blockbuster::omdb::{
    keyed_uri, movie_uri, search_uri, OmdbErrorResponse, OmdbMovie, OmdbRating, OmdbResponse,
    OmdbSearchResponse, OmdbSearchResult,
};

fn hit(title: &str, id: &str) -> OmdbSearchResult {
    OmdbSearchResult {
        title: title.to_string(),
        year: String::from("1999"),
        imdb_id: id.to_string(),
        result_type: String::from("movie"),
        poster_uri: String::from("http://img/p.jpg"),
    }
}

fn movie(ratings: Option<Vec<OmdbRating>>) -> OmdbMovie {
    OmdbMovie {
        title: String::from("The Matrix"),
        year: String::from("1999"),
        imdb_id: String::from("tt0133093"),
        result_type: String::from("movie"),
        poster_uri: String::from("http://img/m.jpg"),
        released: Some(String::from("31 Mar 1999")),
        runtime: Some(String::from("136 min")),
        genre: Some(String::from("Action, Sci-Fi")),
        director: Some(String::from("Lana Wachowski, Lilly Wachowski")),
        writer: None,
        actors: Some(String::from("Keanu Reeves")),
        plot: None,
        language: Some(String::from("English")),
        country: Some(String::from("United States")),
        awards: None,
        metascore: Some(String::from("73")),
        imdb_rating: Some(String::from("8.7")),
        imdb_votes: Some(String::from("2,000,000")),
        dvd: None,
        box_office: Some(String::from("$172,076,928")),
        production: None,
        website: None,
        ratings,
    }
}

#[test]
fn search_hit_keeps_its_fields() {
    let r: SearchResult = hit("Heat", "tt0113277").into();
    assert_eq!(
        r,
        SearchResult {
            title: String::from("Heat"),
            year: String::from("1999"),
            imdb_id: String::from("tt0113277"),
            result_type: String::from("movie"),
            poster_uri: String::from("http://img/p.jpg"),
        }
    );
}

#[test]
fn rating_keeps_source_and_value() {
    let r: MovieRating = OmdbRating { source: String::from("Metacritic"), value: String::from("73/100") }.into();
    assert_eq!(r, MovieRating { source: String::from("Metacritic"), value: String::from("73/100") });
}

#[test]
fn movie_keeps_every_field_and_rating_order() {
    let ratings = vec![
        OmdbRating { source: String::from("Internet Movie Database"), value: String::from("8.7/10") },
        OmdbRating { source: String::from("Rotten Tomatoes"), value: String::from("83%") },
    ];
    let d = movie(Some(ratings)).into();
    assert_eq!(d.title, "The Matrix");
    assert_eq!(d.imdb_id, "tt0133093");
    assert_eq!(d.writer, None);
    assert_eq!(d.box_office, Some(String::from("$172,076,928")));
    assert_eq!(
        d.ratings,
        Some(vec![
            MovieRating { source: String::from("Internet Movie Database"), value: String::from("8.7/10") },
            MovieRating { source: String::from("Rotten Tomatoes"), value: String::from("83%") },
        ])
    );
    let none = movie(None).into();
    assert_eq!(none.ratings, None);
}

#[test]
fn error_response_carries_omdb_message() {
    let e = ErrorResponse::from(OmdbErrorResponse { error: String::from("Movie not found!") });
    assert_eq!(e, ErrorResponse { err: String::from("Movie not found!") });
}

#[test]
fn search_response_converts_hits_and_count() {
    let r = SearchResponse::from(OmdbSearchResponse {
        results: vec![hit("Heat", "tt0113277"), hit("Heat 2", "tt9")],
        total_results: String::from("25"),
    });
    assert_eq!(r.total_results, 25);
    assert_eq!(r.results.len(), 2);
    assert_eq!(r.results[1].imdb_id, "tt9");
}

#[test]
fn omdb_answers_become_api_answers() {
    let ok = ResponseResult::from(OmdbResponse::Success(OmdbSearchResponse {
        results: vec![hit("Heat", "tt0113277")],
        total_results: String::from("1"),
    }));
    match ok {
        ResponseResult::Response(s) => {
            assert_eq!(s.total_results, 1);
            assert_eq!(s.results[0].title, "Heat");
        }
        ResponseResult::ErrorResponse(_) => panic!("expected a response"),
    }
    let err = ResponseResult::from(OmdbResponse::Error(OmdbErrorResponse { error: String::from("Too many results.") }));
    assert_eq!(err, ResponseResult::ErrorResponse(ErrorResponse { err: String::from("Too many results.") }));
}

#[test]
fn omdb_request_addresses() {
    assert_eq!(search_uri("heat"), "http://www.omdbapi.com/?s=heat");
    assert_eq!(movie_uri("tt0113277"), "http://www.omdbapi.com/?i=tt0113277");
    assert_eq!(keyed_uri("http://www.omdbapi.com/?s=heat", "k3y"), "http://www.omdbapi.com/?s=heat&apiKey=k3y");
}
