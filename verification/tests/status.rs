use service_helpers::status::{InvalidStatusCode, StatusCode};

#[test]
fn numbers_from_100_to_999_are_status_codes() {
    assert_eq!(StatusCode::from_u16(100).unwrap().as_u16(), 100);
    assert_eq!(StatusCode::from_u16(200).unwrap().as_u16(), 200);
    assert_eq!(StatusCode::from_u16(999).unwrap().as_u16(), 999);
}

#[test]
fn numbers_outside_the_range_are_refused() {
    assert_eq!(StatusCode::from_u16(0), Err(InvalidStatusCode {}));
    assert_eq!(StatusCode::from_u16(99), Err(InvalidStatusCode {}));
    assert_eq!(StatusCode::from_u16(1000), Err(InvalidStatusCode {}));
    assert_eq!(StatusCode::from_u16(u16::MAX), Err(InvalidStatusCode {}));
}

#[test]
fn named_status_codes_have_their_numbers() {
    assert_eq!(StatusCode::ok().as_u16(), 200);
    assert_eq!(StatusCode::not_found().as_u16(), 404);
    assert_eq!(StatusCode::internal_server_error().as_u16(), 500);
    assert_eq!(StatusCode::from_u16(404), Ok(StatusCode::not_found()));
}

#[test]
fn status_line_is_digits_space_and_reason() {
    assert_eq!(StatusCode::ok().status_line(), "200 OK");
    assert_eq!(StatusCode::not_found().status_line(), "404 Not Found");
    assert_eq!(StatusCode::internal_server_error().status_line(), "500 Internal Server Error");
    assert_eq!(StatusCode::from_u16(100).unwrap().status_line(), "100 Continue");
    assert_eq!(StatusCode::from_u16(418).unwrap().status_line(), "418 I'm a teapot");
}

#[test]
fn status_line_of_a_code_without_reason() {
    assert_eq!(StatusCode::from_u16(799).unwrap().status_line(), "799 <unknown status code>");
    assert_eq!(StatusCode::from_u16(999).unwrap().status_line(), "999 <unknown status code>");
    assert_eq!(StatusCode::from_u16(109).unwrap().status_line(), "109 <unknown status code>");
}

#[test]
fn status_line_agrees_with_the_http_crate() {
    for code in 100..=999u16 {
        let expected = http::StatusCode::from_u16(code).unwrap().to_string();
        assert_eq!(StatusCode::from_u16(code).unwrap().status_line(), expected);
    }
}

#[test]
fn canonical_reason_is_there_for_known_codes_only() {
    assert_eq!(StatusCode::ok().canonical_reason(), Some("OK"));
    assert_eq!(StatusCode::not_found().canonical_reason(), Some("Not Found"));
    assert_eq!(StatusCode::from_u16(799).unwrap().canonical_reason(), None);
}
