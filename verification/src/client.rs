//! The client that the web pages use to reach the JSON API.
use vstd::prelude::*;

use crate::text::{
    decimal, format_i32, format_u32, lemma_parse_format_roundtrip, parse_u32_spec, signed_decimal,
};

verus! {

/// The HTTP client of the `reqwest` crate.
#[verifier::external_type_specification]
#[verifier::external_body]
pub struct ExReqwestClient(reqwest::Client);

/// A client of the JSON API at `base_url`.
pub struct MyBlockbusterClient {
    client: reqwest::Client,
    base_url: String,
}

/// The address of the movie with row id `id`.
pub open spec fn movie_url_spec(base_url: Seq<char>, id: i32) -> Seq<char> {
    base_url + "/api/movie/"@ + signed_decimal(id as int)
}

/// The query string of a listing request.
pub open spec fn movies_query_spec(count: Option<u32>, after: Option<u32>) -> Seq<char> {
    match (count, after) {
        (None, None) => Seq::empty(),
        (Some(c), None) => "?count="@ + decimal(c as nat),
        (None, Some(a)) => "?after="@ + decimal(a as nat),
        (Some(c), Some(a)) => "?count="@ + decimal(c as nat) + "&after="@ + decimal(a as nat),
    }
}

/// A listing address carries each page parameter that is given, under its own
/// name and in base ten, after `{base_url}/api/movies`; the offset, when given,
/// ends the address and reads back as the offset asked for.
pub proof fn law_movies_url_carries_page(
    base_url: Seq<char>,
    count: Option<u32>,
    after: Option<u32>,
    r: Seq<char>,
)
    requires
        r == base_url + "/api/movies"@ + movies_query_spec(count, after),
    ensures
        (match (count, after) {
            (None, None) => r == base_url + "/api/movies"@,
            (Some(c), None) => r == base_url + "/api/movies"@ + "?count="@ + decimal(c as nat),
            (None, Some(a)) => r == base_url + "/api/movies"@ + "?after="@ + decimal(a as nat),
            (Some(c), Some(a)) => r == base_url + "/api/movies"@ + "?count="@ + decimal(c as nat)
                + "&after="@ + decimal(a as nat),
        }),
        after matches Some(a) ==> parse_u32_spec(r.skip(r.len() - decimal(a as nat).len()))
            == Some(a),
        after matches Some(a) ==> r.subrange(
            r.len() - decimal(a as nat).len() - "after="@.len(),
            r.len() - decimal(a as nat).len(),
        ) == "after="@,
{
    if let Some(a) = after {
        let d = decimal(a as nat);
        let head = base_url + "/api/movies"@ + match count {
            Some(c) => "?count="@ + decimal(c as nat) + "&"@,
            None => "?"@,
        };
        assert(r =~= head + "after="@ + d) by {
            reveal_strlit("?after=");
            reveal_strlit("&after=");
            reveal_strlit("after=");
            reveal_strlit("?");
            reveal_strlit("&");
        }
        assert(r.skip(r.len() - d.len()) =~= d);
        assert(r.subrange(r.len() - d.len() - "after="@.len(), r.len() - d.len()) =~= "after="@);
        lemma_parse_format_roundtrip(a);
    }
}

/// The address of a movie is `{base_url}/api/movie/` followed by its row id in
/// base ten, a minus sign first when the id is negative.
pub proof fn law_movie_url_ends_with_id(base_url: Seq<char>, id: i32, r: Seq<char>)
    requires
        r == movie_url_spec(base_url, id),
    ensures
        r.take((base_url + "/api/movie/"@).len() as int) == base_url + "/api/movie/"@,
        r.skip((base_url + "/api/movie/"@).len() as int) == signed_decimal(id as int),
        id >= 0 ==> parse_u32_spec(r.skip((base_url + "/api/movie/"@).len() as int)) == Some(
            id as u32,
        ),
{
    assert(r.take((base_url + "/api/movie/"@).len() as int) =~= base_url + "/api/movie/"@);
    assert(r.skip((base_url + "/api/movie/"@).len() as int) =~= signed_decimal(id as int));
    if id >= 0 {
        lemma_parse_format_roundtrip(id as u32);
    }
}

impl MyBlockbusterClient {
    /// The client of the API at `base_url` that sends its requests with `client`.
    pub fn new(client: reqwest::Client, base_url: String) -> (r: Self)
        ensures
            r.base_url() == base_url@,
            r.http_client() == client,
    {
        MyBlockbusterClient { client, base_url }
    }

    /// The address of the API.
    pub closed spec fn base_url(&self) -> Seq<char> {
        self.base_url@
    }

    /// The HTTP client the requests go through.
    pub closed spec fn http_client(&self) -> reqwest::Client {
        self.client
    }

    /// The HTTP client the requests go through.
    pub fn http(&self) -> (r: &reqwest::Client)
        ensures
            *r == self.http_client(),
    {
        &self.client
    }

    /// Where a movie is deleted: `{base_url}/api/movie/{id}`.
    pub fn delete_movie_url(&self, id: i32) -> (r: String)
        ensures
            r@ == movie_url_spec(self.base_url(), id),
    {
        let mut r = self.base_url.clone();
        r.append("/api/movie/");
        let digits = format_i32(id);
        r.append(digits.as_str());
        r
    }

    /// Where a movie's watched flag is toggled: `{base_url}/api/movie/{id}/watched`.
    pub fn toggle_watched_url(&self, id: i32) -> (r: String)
        ensures
            r@ == movie_url_spec(self.base_url(), id) + "/watched"@,
    {
        let mut r = self.delete_movie_url(id);
        r.append("/watched");
        r
    }

    /// Where one movie is read: `{base_url}/api/movie/{id}`.
    pub fn movie_url(&self, id: u32) -> (r: String)
        ensures
            r@ == self.base_url() + "/api/movie/"@ + decimal(id as nat),
    {
        let mut r = self.base_url.clone();
        r.append("/api/movie/");
        let digits = format_u32(id);
        r.append(digits.as_str());
        r
    }

    /// Where titles are searched on OMDb: `{base_url}/api/omdb/search/{query}`.
    pub fn search_url(&self, query: &str) -> (r: String)
        ensures
            r@ == self.base_url() + "/api/omdb/search/"@ + query@,
    {
        let mut r = self.base_url.clone();
        r.append("/api/omdb/search/");
        r.append(query);
        r
    }

    /// Where the catalogue is listed: `{base_url}/api/movies`, followed by
    /// `?count={count}`, `?after={after}` or `?count={count}&after={after}` for
    /// the parameters that are given.
    pub fn movies_url(&self, count: Option<u32>, after: Option<u32>) -> (r: String)
        ensures
            r@ == self.base_url() + "/api/movies"@ + movies_query_spec(count, after),
            (match (count, after) {
                (None, None) => r@ == self.base_url() + "/api/movies"@,
                (Some(c), None) => r@ == self.base_url() + "/api/movies"@ + "?count="@ + decimal(
                    c as nat,
                ),
                (None, Some(a)) => r@ == self.base_url() + "/api/movies"@ + "?after="@ + decimal(
                    a as nat,
                ),
                (Some(c), Some(a)) => r@ == self.base_url() + "/api/movies"@ + "?count="@
                    + decimal(c as nat) + "&after="@ + decimal(a as nat),
            }),
    {
        let mut r = self.base_url.clone();
        r.append("/api/movies");
        match count {
            Some(c) => {
                r.append("?count=");
                let digits = format_u32(c);
                r.append(digits.as_str());
                match after {
                    Some(a) => {
                        r.append("&after=");
                        let digits = format_u32(a);
                        r.append(digits.as_str());
                    },
                    None => {},
                }
            },
            None => {
                match after {
                    Some(a) => {
                        r.append("?after=");
                        let digits = format_u32(a);
                        r.append(digits.as_str());
                    },
                    None => {},
                }
            },
        }
        r
    }

    /// Where movies are added: `{base_url}/api/movie`.
    pub fn add_movie_url(&self) -> (r: String)
        ensures
            r@ == self.base_url() + "/api/movie"@,
    {
        let mut r = self.base_url.clone();
        r.append("/api/movie");
        r
    }
}

} // verus!
