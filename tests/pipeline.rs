use milrouter::assets::AssetTable;
use milrouter::client::{read_text_reply, text_reply_body, ClientError};
use milrouter::codec::{compress, decompress, encode_text};
use milrouter::demo::{auth_handler, super_awesome_html_generator, the_time, DemoRouter};
use milrouter::dispatch::{all_aboard, Action, Event, Router, Stage};
use milrouter::http::{Body, Headers, Method, Response};
use milrouter::registry::{EndpointInfo, Registry};

fn demo(html: bool) -> Router {
    let mut assets = AssetTable::new();
    assets.insert("index.html".to_string(), b"<html>hi</html>".to_vec());
    assets.insert("app.js".to_string(), b"let x = 1;".to_vec());
    let mut r = DemoRouter::router(assets).unwrap();
    r.html = html;
    r
}

fn respond(a: Action) -> Response {
    match a {
        Action::Respond(r) => r,
        other => panic!("expected a response, got {:?}", other),
    }
}

fn text(b: &Body) -> String {
    match b {
        Body::Text(s) => s.clone(),
        other => panic!("expected text, got {:?}", other),
    }
}

fn evil_headers() -> Headers {
    let mut h = Headers::new();
    h.insert("evil".to_string(), "1".to_string());
    h
}

#[test]
fn the_time_post_succeeds() {
    let r = demo(true);
    let (stage, action) = r.begin(Method::Post, b"/the_time");
    assert!(matches!(action, Action::Authenticate(0)));
    assert!(auth_handler(&Headers::new()).is_ok());
    let (stage, action) = r.advance(stage, Event::Authorized);
    assert!(matches!(action, Action::Invoke(0)));
    let value = the_time(1_700_000_000_123);
    assert_eq!(value, "1700000000123");
    let (stage, action) = r.advance(stage, Event::Returned(encode_text(&value)));
    assert_eq!(stage, Stage::Done);
    let resp = respond(action);
    assert_eq!(resp.status, 200);
    assert!(resp.gzipped);
    let body = match resp.body {
        Body::Bytes(b) => b,
        other => panic!("expected bytes, got {:?}", other),
    };
    let back = read_text_reply(200, true, body).unwrap();
    assert_eq!(back, "1700000000123");
    assert!(back.chars().all(|c| c.is_ascii_digit()));
}

#[test]
fn the_time_put_is_not_found() {
    let r = demo(true);
    let (stage, action) = r.begin(Method::Put, b"/the_time");
    assert_eq!(stage, Stage::Done);
    let resp = respond(action);
    assert_eq!(resp.status, 404);
    assert!(matches!(resp.body, Body::Empty));
}

#[test]
fn wrong_method_matches_unknown_path() {
    let r = demo(true);
    let (s1, a1) = r.begin(Method::Put, b"/the_time");
    let (s2, a2) = r.begin(Method::Post, b"/no_such_thing");
    let (s3, a3) = r.begin(Method::Delete, b"/the_time");
    assert_eq!(s1, s2);
    assert_eq!(s1, s3);
    let (r1, r2, r3) = (respond(a1), respond(a2), respond(a3));
    assert_eq!((r1.status, r2.status, r3.status), (404, 404, 404));
    assert!(matches!((r1.body, r2.body, r3.body), (Body::Empty, Body::Empty, Body::Empty)));
}

#[test]
fn the_time_evil_is_unauthorised() {
    let r = demo(true);
    let (stage, _) = r.begin(Method::Post, b"/the_time");
    let reason = auth_handler(&evil_headers()).unwrap_err();
    assert_eq!(reason, "Evil request detected.");
    let (stage, action) = r.advance(stage, Event::Unauthorized(reason));
    assert_eq!(stage, Stage::Done);
    let resp = respond(action);
    assert_eq!(resp.status, 401);
    assert_eq!(text(&resp.body), "You aren't authorised to access this endpoint\nEvil request detected.");
}

#[test]
fn auth_rejection_wins_over_bad_body() {
    let entries = vec![EndpointInfo::new("Greet", false, false)];
    let registry = Registry::new(entries).unwrap();
    let r = Router { registry, assets: AssetTable::new(), html: false, local: false };
    let (stage, action) = r.begin(Method::Post, b"/greet");
    assert!(matches!(action, Action::Authenticate(0)));
    let (_, action) = r.advance(stage, Event::Unauthorized("bad token".to_string()));
    assert_eq!(respond(action).status, 401);
}

#[test]
fn data_endpoint_decodes_after_auth() {
    let entries = vec![EndpointInfo::new("Greet", true, false)];
    let r = Router { registry: Registry::new(entries).unwrap(), assets: AssetTable::new(), html: false, local: false };
    let (stage, _) = r.begin(Method::Put, b"/greet");
    let (stage, action) = r.advance(stage, Event::Authorized);
    assert_eq!(stage, Stage::Decoding(0));
    assert!(matches!(action, Action::DecodeBody(0)));
    let (_, action) = r.advance(stage, Event::Undecodable("Failed to deserialize body for Greet".to_string()));
    let resp = respond(action);
    assert_eq!(resp.status, 500);
    assert_eq!(text(&resp.body), "Failed to deserialize body for Greet");
}

#[test]
fn unit_endpoint_never_reads_body() {
    let r = demo(false);
    let (stage, _) = r.begin(Method::Post, b"/the_time");
    let (stage, action) = r.advance(stage, Event::Authorized);
    assert_eq!(stage, Stage::Handling(0));
    assert!(matches!(action, Action::Invoke(0)));
}

#[test]
fn handler_error_is_bad_request() {
    let r = demo(false);
    let (stage, _) = r.begin(Method::Post, b"/the_time");
    let (stage, _) = r.advance(stage, Event::Authorized);
    let (_, action) = r.advance(stage, Event::Failed("no clock".to_string()));
    let resp = respond(action);
    assert_eq!(resp.status, 400);
    assert_eq!(text(&resp.body), "no clock");
}

#[test]
fn handler_panic_is_internal_error() {
    let r = demo(false);
    let (stage, _) = r.begin(Method::Post, b"/the_time");
    let (stage, _) = r.advance(stage, Event::Authorized);
    let (stage, action) = r.advance(stage, Event::Panicked("index out of bounds".to_string()));
    assert_eq!(stage, Stage::Done);
    let resp = respond(action);
    assert_eq!(resp.status, 500);
    assert!(text(&resp.body).contains("index out of bounds"));
    // the router holds no per-request state: the next request is served as usual
    let (_, action) = r.begin(Method::Post, b"/the_time");
    assert!(matches!(action, Action::Authenticate(0)));
}

#[test]
fn root_without_html_is_not_found() {
    let r = demo(false);
    let (_, action) = r.begin(Method::Get, b"/");
    assert_eq!(respond(action).status, 404);
}

#[test]
fn root_with_html_renders_page() {
    let r = demo(true);
    let (stage, action) = r.begin(Method::Get, b"/");
    assert_eq!(stage, Stage::RenderingHtml);
    assert!(matches!(action, Action::RenderHtml));
    let page = super_awesome_html_generator();
    let (_, action) = r.advance(stage, Event::Html(page.clone()));
    let resp = respond(action);
    assert_eq!(resp.status, 200);
    assert_eq!(resp.content_type.as_deref(), Some("text/html"));
    assert!(!resp.gzipped);
    assert_eq!(text(&resp.body), page);
}

#[test]
fn asset_served_under_both_prefixes() {
    let r = demo(false);
    for path in [&b"/index.html"[..], &b"/static/index.html"[..]] {
        let (_, action) = r.begin(Method::Get, path);
        let resp = respond(action);
        assert_eq!(resp.status, 200);
        assert_eq!(resp.content_type.as_deref(), Some("text/html"));
        assert!(resp.gzipped);
        match resp.body {
            Body::Bytes(b) => assert_eq!(decompress(&b).unwrap(), b"<html>hi</html>".to_vec()),
            other => panic!("expected bytes, got {:?}", other),
        }
    }
}

#[test]
fn asset_mime_from_extension() {
    let r = demo(false);
    let (_, action) = r.begin(Method::Get, b"/app.js");
    let resp = respond(action);
    assert_eq!(resp.status, 200);
    assert!(resp.content_type.unwrap().contains("javascript"));
}

#[test]
fn unknown_asset_is_not_found() {
    let r = demo(false);
    let (_, action) = r.begin(Method::Get, b"/missing.css");
    assert_eq!(respond(action).status, 404);
}

#[test]
fn local_assets_are_read_fresh() {
    let mut r = demo(false);
    r.local = true;
    let (stage, action) = r.begin(Method::Get, b"/index.html");
    assert_eq!(stage, Stage::ReadingAsset(0));
    assert!(matches!(action, Action::ReadAsset(0)));
    let (_, action) = r.advance(stage, Event::AssetRead(b"fresh".to_vec()));
    let resp = respond(action);
    assert_eq!(resp.status, 200);
    match resp.body {
        Body::Bytes(b) => assert_eq!(decompress(&b).unwrap(), b"fresh".to_vec()),
        other => panic!("expected bytes, got {:?}", other),
    }
    let (stage, _) = r.begin(Method::Get, b"/index.html");
    let (_, action) = r.advance(stage, Event::AssetUnreadable("No such file".to_string()));
    let resp = respond(action);
    assert_eq!(resp.status, 500);
    assert_eq!(text(&resp.body), "No such file");
}

#[test]
fn out_of_order_event_is_internal_error() {
    let r = demo(false);
    let (_, action) = r.advance(Stage::Done, Event::Authorized);
    let resp = respond(action);
    assert_eq!(resp.status, 500);
    assert!(matches!(resp.body, Body::Empty));
    let (stage, _) = r.begin(Method::Post, b"/the_time");
    let (_, action) = r.advance(stage, Event::Decoded);
    assert_eq!(respond(action).status, 500);
}

#[test]
fn all_aboard_lets_everyone_in() {
    assert!(all_aboard(&evil_headers()).is_ok());
    assert!(all_aboard(&Headers::new()).is_ok());
}

#[test]
fn reply_round_trip() {
    for s in ["", "hello", "quote \" and \\ and \n", "ünïcödé ✓"] {
        let body = text_reply_body(s);
        assert_ne!(body, s.as_bytes().to_vec());
        assert_eq!(read_text_reply(200, true, body).unwrap(), s);
    }
}

#[test]
fn reply_errors() {
    match read_text_reply(400, false, b"no clock".to_vec()) {
        Err(ClientError::Rejected(400, b)) => assert_eq!(b, b"no clock".to_vec()),
        other => panic!("unexpected {:?}", other),
    }
    match read_text_reply(200, true, b"not gzip".to_vec()) {
        Err(ClientError::Corrupt(b)) => assert_eq!(b, b"not gzip".to_vec()),
        other => panic!("unexpected {:?}", other),
    }
    match read_text_reply(200, true, compress(b"{\"a\":1}")) {
        Err(ClientError::Undecodable(b)) => assert_eq!(b, b"{\"a\":1}".to_vec()),
        other => panic!("unexpected {:?}", other),
    }
    assert_eq!(read_text_reply(200, false, b"\"plain\"".to_vec()).unwrap(), "plain");
}
