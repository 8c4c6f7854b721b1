use my_blockbuster::model::{DeleteResponse, ErrorResponse, ResponseResult, WatchedToggled};

#[test]
fn outcome_ok_becomes_response() {
    let r = ResponseResult::from_outcome(Ok(DeleteResponse { movie_id: 3, title: String::from("Heat") }));
    assert_eq!(r, ResponseResult::Response(DeleteResponse { movie_id: 3, title: String::from("Heat") }));
}

#[test]
fn outcome_err_becomes_error_response() {
    let r: ResponseResult<WatchedToggled> = ResponseResult::from_outcome(Err(String::from("no rows returned")));
    assert_eq!(r, ResponseResult::ErrorResponse(ErrorResponse { err: String::from("no rows returned") }));
}

#[test]
fn into_response_keeps_value_only() {
    let ok = ResponseResult::Response(WatchedToggled { movie_id: 1, watched: true });
    assert_eq!(ok.into_response(), Some(WatchedToggled { movie_id: 1, watched: true }));
    let err: ResponseResult<WatchedToggled> = ResponseResult::ErrorResponse(ErrorResponse { err: String::from("x") });
    assert_eq!(err.into_response(), None);
}
