use reqwest::header::HeaderValue;
use reqwest_eventsource::media_type::{is_event_stream, names_event_stream};
use reqwest_eventsource::response::{check_head, check_response, Head};
use reqwest_eventsource::Error;

fn response(status: u16, content_types: &[&[u8]]) -> reqwest::Response {
    let mut builder = http::Response::builder().status(status).header("x-test", "here");
    for content_type in content_types {
        builder = builder.header("content-type", HeaderValue::from_bytes(content_type).unwrap());
    }
    reqwest::Response::from(builder.body("").unwrap())
}

fn is_test_response(response: &reqwest::Response) -> bool {
    response.headers().get("x-test").unwrap() == "here"
}

fn names(type_: &str, subtype: &str) -> Option<(String, String)> {
    Some((type_.to_string(), subtype.to_string()))
}

#[test]
fn event_stream_is_accepted() {
    let accepted = check_response(response(200, &[b"text/event-stream"])).unwrap();
    assert_eq!(accepted.status().as_u16(), 200);
    assert!(is_test_response(&accepted));
}

#[test]
fn parameters_and_case_do_not_matter() {
    for content_type in [
        "TEXT/Event-Stream",
        "text/event-stream;charset=utf-8",
        "text/event-stream; charset=UTF-8; x=y",
        "text/event-stream;",
    ] {
        assert!(check_response(response(200, &[content_type.as_bytes()])).is_ok());
    }
}

#[test]
fn suffix_does_not_matter() {
    assert!(is_event_stream(&HeaderValue::from_static("text/event-stream+x")));
}

#[test]
fn first_content_type_counts() {
    assert!(check_response(response(200, &[b"text/event-stream", b"text/html"])).is_ok());
    assert!(check_response(response(200, &[b"text/html", b"text/event-stream"])).is_err());
}

#[test]
fn other_status_is_refused() {
    for status in [100, 201, 204, 301, 404, 500, 999] {
        match check_response(response(status, &[b"text/event-stream"])) {
            Err(Error::InvalidStatusCode(found, rejected)) => {
                assert_eq!(found, status);
                assert_eq!(rejected.status().as_u16(), status);
                assert!(is_test_response(&rejected));
            }
            other => panic!("{:?}", other),
        }
    }
}

#[test]
fn status_comes_before_content_type() {
    match check_response(response(404, &[b"text/html"])) {
        Err(Error::InvalidStatusCode(404, _)) => {}
        other => panic!("{:?}", other),
    }
}

#[test]
fn other_content_type_is_refused() {
    for content_type in [
        &b"text/html"[..],
        b"application/event-stream",
        b"text/event-streams",
        b"text",
        b"text/event-stream, text/html",
        b" text/event-stream",
        b"text/event-stream;charset",
        b"text/event-stream\xff",
    ] {
        match check_response(response(200, &[content_type])) {
            Err(Error::InvalidContentType(found, rejected)) => {
                assert_eq!(found.as_bytes(), content_type);
                assert!(is_test_response(&rejected));
            }
            other => panic!("{:?}", other),
        }
    }
}

#[test]
fn missing_content_type_is_refused() {
    match check_response(response(200, &[])) {
        Err(Error::InvalidContentType(found, rejected)) => {
            assert_eq!(found.as_bytes(), b"");
            assert!(is_test_response(&rejected));
        }
        other => panic!("{:?}", other),
    }
}

#[test]
fn heads() {
    let stream = Some(HeaderValue::from_static("text/event-stream"));
    let html = Some(HeaderValue::from_static("text/html"));
    assert_eq!(check_head(200, &stream), Head::EventStream);
    assert_eq!(check_head(200, &html), Head::WrongContentType);
    assert_eq!(check_head(200, &None), Head::WrongContentType);
    assert_eq!(check_head(204, &stream), Head::WrongStatus);
    assert_eq!(check_head(204, &None), Head::WrongStatus);
}

#[test]
fn names_of_an_event_stream() {
    assert!(names_event_stream(&names("text", "event-stream")));
    assert!(!names_event_stream(&names("text", "plain")));
    assert!(!names_event_stream(&names("audio", "event-stream")));
    assert!(!names_event_stream(&None));
}
