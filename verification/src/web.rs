//! The HTML pages' own inputs.
use vstd::prelude::*;

verus! {

/// Whether a page request came from htmx or from a plain page load.
#[derive(Debug, Clone, Copy, PartialEq, Eq)]
pub enum RequestSource {
    Htmx,
    Static,
}

impl RequestSource {
    /// The source of a request whose `HX-Request` header is `hx_request`:
    /// htmx when the header is present, whatever its value.
    pub fn from_hx_request(hx_request: Option<&str>) -> (r: RequestSource)
        ensures
            r == (if hx_request is Some {
                RequestSource::Htmx
            } else {
                RequestSource::Static
            }),
    {
        match hx_request {
            None => RequestSource::Static,
            Some(_) => RequestSource::Htmx,
        }
    }
}

/// The form that adds a movie by its IMDb id.
#[derive(Debug, Clone, PartialEq, Eq)]
pub struct ImdbIdInput {
    pub imdb_id: String,
}

/// The form that names a movie by its row id.
#[derive(Debug, Clone, PartialEq, Eq)]
pub struct MovieIdInput {
    pub id: i32,
}

} // verus!
