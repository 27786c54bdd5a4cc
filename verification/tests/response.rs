use lusion::web::response::{
    answered, empty, found, html, json, stream, Content, Head, BAD_REQUEST, CREATED,
    INTERNAL_SERVER_ERROR, NOT_FOUND, NO_CONTENT, OK,
};

#[test]
fn status_codes() {
    assert_eq!(
        (OK, CREATED, NO_CONTENT, BAD_REQUEST, NOT_FOUND, INTERNAL_SERVER_ERROR),
        (200, 201, 204, 400, 404, 500)
    );
}

#[test]
fn heads_say_what_the_body_holds() {
    assert_eq!(empty(204), Head { status: 204, content: Content::Untyped });
    assert_eq!(stream(200), Head { status: 200, content: Content::Untyped });
    assert_eq!(json(201), Head { status: 201, content: Content::Json });
    assert_eq!(html(200), Head { status: 200, content: Content::Html });
    assert_eq!(Content::Untyped.content_type(), None);
    assert_eq!(Content::Json.content_type(), Some("application/json"));
    assert_eq!(Content::Html.content_type(), Some("text/html"));
}

#[test]
fn lookups_and_queries() {
    assert_eq!(found(true), json(200));
    assert_eq!(found(false), json(404));
    assert_eq!(answered(true), json(200));
    assert_eq!(answered(false), json(400));
}

#[test]
fn test_empty() {
    let resp = empty(OK);
    assert_eq!(resp.status, 200);
    assert_eq!(resp.content.content_type(), None);
}

#[test]
fn test_stream() {
    let resp = stream(OK);
    assert_eq!(resp.status, 200);
    assert_eq!(resp.content.content_type(), None);
}

#[test]
fn test_json() {
    let resp = json(OK);
    assert_eq!(resp.status, 200);

    let content_type = resp.content.content_type();
    match content_type {
        Some(content_type) => assert_eq!(content_type, "application/json"),
        None => panic!("a JSON response says so"),
    }
}

#[test]
fn test_html() {
    let resp = html(OK);
    assert_eq!(resp.status, 200);

    let content_type = resp.content.content_type();
    match content_type {
        Some(content_type) => assert_eq!(content_type, "text/html"),
        None => panic!("an HTML response says so"),
    }
}
