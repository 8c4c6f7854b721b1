use my_blockbuster::model::MovieDetail;
use my_blockbuster::sql::{insert_query, JsonField, JsonRecord, SqlQuery};

fn field(name: &str, text: Option<&str>) -> JsonField {
    JsonField { name: name.to_string(), text: text.map(|t| t.to_string()) }
}

fn record(fields: Vec<JsonField>) -> JsonRecord {
    JsonRecord::from_fields(fields).expect("distinct names")
}

#[test]
fn duplicate_names_are_refused() {
    assert!(JsonRecord::from_fields(vec![field("a", Some("1")), field("a", Some("2"))]).is_none());
    assert!(JsonRecord::from_fields(vec![field("a", Some("1")), field("b", None)]).is_some());
}

#[test]
fn columns_are_sorted_with_one_placeholder_each() {
    let rec = record(vec![field("title", Some("Heat")), field("actors", Some("Al Pacino")), field("year", Some("1995"))]);
    assert_eq!(
        MovieDetail::get_insert_statement(&rec),
        "insert into movie(actors, title, year) values (?, ?, ?) returning id as movie_id, title"
    );
}

#[test]
fn empty_record_gives_empty_lists() {
    let rec = record(vec![]);
    assert_eq!(MovieDetail::get_insert_statement(&rec), "insert into movie() values () returning id as movie_id, title");
}

#[test]
fn binds_follow_column_order() {
    let rec = record(vec![field("title", Some("Heat")), field("actors", Some("Al Pacino")), field("year", Some("1995"))]);
    let q = MovieDetail::bind_insert_statement(&rec, SqlQuery { sql: String::from("s"), binds: vec![String::from("first")] });
    assert_eq!(q.sql, "s");
    assert_eq!(q.binds, vec!["first", "Al Pacino", "Heat", "1995"]);
}

#[test]
fn all_text_detects_non_strings() {
    assert!(record(vec![field("a", Some("x"))]).all_text());
    assert!(!record(vec![field("a", Some("x")), field("b", None)]).all_text());
}

#[test]
fn full_movie_detail_statement() {
    let names = [
        "title", "year", "imdb_id", "result_type", "poster_uri", "released", "runtime", "genre",
        "director", "writer", "actors", "plot", "language", "country", "awards", "metascore",
        "imdb_rating", "imdb_votes", "dvd", "box_office", "production", "website",
    ];
    let rec = record(names.iter().map(|n| field(n, Some(n))).collect());
    let q = insert_query(&rec);
    assert_eq!(
        q.sql,
        "insert into movie(actors, awards, box_office, country, director, dvd, genre, imdb_id, \
         imdb_rating, imdb_votes, language, metascore, plot, poster_uri, production, released, \
         result_type, runtime, title, website, writer, year) values (?, ?, ?, ?, ?, ?, ?, ?, ?, ?, \
         ?, ?, ?, ?, ?, ?, ?, ?, ?, ?, ?, ?) returning id as movie_id, title"
    );
    let mut sorted: Vec<&str> = names.to_vec();
    sorted.sort();
    assert_eq!(q.binds, sorted);
}

#[test]
fn byte_order_puts_uppercase_first() {
    let rec = record(vec![field("b", Some("1")), field("B", Some("2")), field("a", Some("3"))]);
    let q = insert_query(&rec);
    assert_eq!(q.sql, "insert into movie(B, a, b) values (?, ?, ?) returning id as movie_id, title");
    assert_eq!(q.binds, vec!["2", "3", "1"]);
}

#[test]
fn statement_ignores_member_texts() {
    let a = record(vec![field("title", Some("Heat")), field("plot", None)]);
    let b = record(vec![field("title", Some("Alien")), field("plot", Some("In space"))]);
    assert_eq!(MovieDetail::get_insert_statement(&a), MovieDetail::get_insert_statement(&b));
}
