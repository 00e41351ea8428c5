use auth_gate::response::{ApiResponse, Response};

#[test]
fn a_success_carries_its_data() {
    let response = ApiResponse::success(5u8);
    assert_eq!(response.status, "success");
    assert_eq!(response.code, 200);
    assert_eq!(response.message, None);
    assert_eq!(response.data, Some(5));
    let response = Response::ok("body");
    assert_eq!((response.status.as_str(), response.code, response.data), ("success", 200, Some("body")));
    assert_eq!(response.message, None);
    let response = Response::created("body");
    assert_eq!((response.status.as_str(), response.code, response.data), ("success", 201, Some("body")));
    assert_eq!(response.message, None);
}

#[test]
fn an_error_carries_its_message() {
    let response = ApiResponse::error(418, "teapot");
    assert_eq!(response.status, "error");
    assert_eq!(response.code, 418);
    assert_eq!(response.message.as_deref(), Some("teapot"));
    assert_eq!(response.data, None);
    let response = ApiResponse::error_with_data(422, "bad", vec![1, 2]);
    assert_eq!(response.status, "error");
    assert_eq!(response.code, 422);
    assert_eq!(response.message.as_deref(), Some("bad"));
    assert_eq!(response.data, Some(vec![1, 2]));
}

#[test]
fn each_kind_of_error_has_its_code() {
    let cases = [
        (Response::bad_request("m"), 400),
        (Response::unauthorized("m"), 401),
        (Response::forbidden("m"), 403),
        (Response::not_found("m"), 404),
        (Response::internal_error("m"), 500),
    ];
    for (response, code) in cases {
        assert_eq!(response.status, "error");
        assert_eq!(response.code, code);
        assert_eq!(response.message.as_deref(), Some("m"));
        assert_eq!(response.data, None);
    }
    let response = Response::bad_request_with_data("Validation failed", 3u8);
    assert_eq!((response.status.as_str(), response.code, response.data), ("error", 400, Some(3)));
    assert_eq!(response.message.as_deref(), Some("Validation failed"));
}
