use my_blockbuster::client::MyBlockbusterClient;
use my_blockbuster::web::RequestSource;

#[test]
fn api_addresses() {
    let c = MyBlockbusterClient::new(reqwest::Client::new(), String::from("http://localhost:8000"));
    assert_eq!(c.delete_movie_url(12), "http://localhost:8000/api/movie/12");
    assert_eq!(c.delete_movie_url(-3), "http://localhost:8000/api/movie/-3");
    assert_eq!(c.toggle_watched_url(12), "http://localhost:8000/api/movie/12/watched");
    assert_eq!(c.add_movie_url(), "http://localhost:8000/api/movie");
}

#[test]
fn htmx_header_decides_source() {
    assert_eq!(RequestSource::from_hx_request(Some("true")), RequestSource::Htmx);
    assert_eq!(RequestSource::from_hx_request(Some("")), RequestSource::Htmx);
    assert_eq!(RequestSource::from_hx_request(None), RequestSource::Static);
}
