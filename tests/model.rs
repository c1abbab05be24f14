use milrouter::assets::{normalize_path, strip, AssetTable};
use milrouter::client::{plan_request, request_url};
use milrouter::codec::{compress, decimal_string, decode_text, decompress, encode_text, gz_compress};
use milrouter::demo::DemoRouter;
use milrouter::fetch::{collapse, Fetch, FetchError};
use milrouter::http::{Headers, Method};
use milrouter::registry::{EndpointInfo, Registry, RegistryError};

#[test]
fn endpoint_name_is_snake_case() {
    let e = EndpointInfo::new("TheTime", false, true);
    assert_eq!(e.name, "the_time");
    assert_eq!(e.path(), "the_time");
    assert_eq!(EndpointInfo::new("GetUserByID", true, false).name, "get_user_by_id");
    assert_eq!(DemoRouter::TheTime.info().name, "the_time");
}

#[test]
fn method_follows_idempotency() {
    assert_eq!(EndpointInfo::new("A", true, true).method(), Method::Put);
    assert_eq!(EndpointInfo::new("A", false, true).method(), Method::Post);
    assert!(Method::Put.is_idempotent());
    assert!(Method::Delete.is_idempotent());
    assert!(Method::Get.is_idempotent());
    assert!(!Method::Post.is_idempotent());
    assert!(!Method::Patch.is_idempotent());
}

#[test]
fn duplicate_names_are_refused() {
    let entries = vec![
        EndpointInfo::new("Greet", false, true),
        EndpointInfo::new("TheTime", false, true),
        EndpointInfo::new("the_time", true, false),
    ];
    assert_eq!(Registry::new(entries).unwrap_err(), RegistryError::DuplicateName(1, 2));
    let ok = Registry::new(vec![EndpointInfo::new("Greet", false, true), EndpointInfo::new("Part", true, true)]).unwrap();
    assert_eq!(ok.len(), 2);
    assert_eq!(ok.lookup(Method::Put, b"part"), Some(1));
    assert_eq!(ok.lookup(Method::Post, b"part"), None);
    assert_eq!(ok.lookup(Method::Post, b"greet"), Some(0));
    assert!(Registry::new(Vec::new()).is_ok());
}

#[test]
fn path_normalization() {
    assert_eq!(normalize_path(b"/static/a/b.css"), b"a/b.css".to_vec());
    assert_eq!(normalize_path(b"/a.css"), b"a.css".to_vec());
    assert_eq!(normalize_path(b"static/x"), b"x".to_vec());
    assert_eq!(normalize_path(b"//x"), b"/x".to_vec());
    assert_eq!(normalize_path(b"/"), b"".to_vec());
    assert_eq!(normalize_path(b""), b"".to_vec());
    assert_eq!(normalize_path(b"/static"), b"static".to_vec());
    assert_eq!(normalize_path(b"/static/static/y"), b"static/y".to_vec());
}

#[test]
fn strip_quotes() {
    assert_eq!(strip("\"./example/static\""), "./example/static");
    assert_eq!(strip("\"\""), "");
    assert_eq!(strip("\""), "\"");
    assert_eq!(strip("plain"), "plain");
    assert_eq!(strip("\"half"), "\"half");
}

#[test]
fn asset_insert_replaces() {
    let mut t = AssetTable::new();
    t.insert("a.txt".to_string(), b"one".to_vec());
    t.insert("b.css".to_string(), b"two".to_vec());
    t.insert("a.txt".to_string(), b"three".to_vec());
    assert_eq!(t.len(), 2);
    assert_eq!(t.entry(0).bytes, b"three".to_vec());
    assert_eq!(t.entry(0).mime, "text/plain");
    assert_eq!(t.entry(1).mime, "text/css");
    assert_eq!(t.get(b"b.css"), Some(1));
    assert_eq!(t.get(b"c.css"), None);
    t.insert("noext".to_string(), Vec::new());
    assert_eq!(t.entry(2).mime, "text/plain");
}

#[test]
fn headers_lookup() {
    let mut h = Headers::new();
    assert!(!h.contains_key("evil"));
    h.insert("content-type".to_string(), "x".to_string());
    assert!(!h.contains_key("evil"));
    h.insert("evil".to_string(), "".to_string());
    assert!(h.contains_key("evil"));
}

#[test]
fn gzip_round_trip() {
    let data = b"hello hello hello hello".to_vec();
    let packed = compress(&data);
    assert_ne!(packed, data);
    assert_eq!(&packed[..2], &[0x1f, 0x8b]);
    assert_eq!(decompress(&packed).unwrap(), data);
    let mut out = b"xy".to_vec();
    gz_compress(&data, &mut out);
    assert_eq!(&out[..2], b"xy");
    assert_eq!(out[2..].to_vec(), packed);
    assert_eq!(decompress(&compress(b"")).unwrap(), Vec::<u8>::new());
    assert!(decompress(b"\x1f\x8bgarbage").is_none());
}

#[test]
fn json_text_codec() {
    assert_eq!(encode_text("a\"b"), b"\"a\\\"b\"".to_vec());
    assert_eq!(decode_text(b"\"x y\"").unwrap(), "x y");
    assert!(decode_text(b"12").is_none());
    assert!(decode_text(b"\"open").is_none());
}

#[test]
fn decimal_numerals() {
    assert_eq!(decimal_string(0), "0");
    assert_eq!(decimal_string(7), "7");
    assert_eq!(decimal_string(10), "10");
    assert_eq!(decimal_string(1234567890), "1234567890");
    assert_eq!(decimal_string(u64::MAX), "18446744073709551615");
}

#[test]
fn request_plan() {
    let e = EndpointInfo::new("TheTime", false, true);
    assert_eq!(request_url("http://localhost:40000", &e), "http://localhost:40000/the_time");
    let p = plan_request("http://h", &EndpointInfo::new("SetName", true, false), b"\"bob\"".to_vec());
    assert_eq!(p.method, Method::Put);
    assert_eq!(p.url, "http://h/set_name");
    assert_eq!(p.body, b"\"bob\"".to_vec());
    assert_eq!(p.headers.entries[0], ("Connection".to_string(), "Keep-Alive".to_string()));
    assert_eq!(p.headers.entries[1], ("Keep-Alive".to_string(), "timeout=600".to_string()));
}

#[test]
fn fetch_accessors() {
    let w: Fetch<u32, String> = Fetch::default();
    assert!(matches!(w, Fetch::Waiting));
    assert!(matches!(w.clone().result(), Err(FetchError::NotStarted)));
    assert!(matches!(Fetch::<u32, String>::Loading.result(), Err(FetchError::InProgress)));
    assert!(matches!(Fetch::<u32, String>::Finished(5).result(), Ok(5)));
    match Fetch::<u32, String>::Error("x".to_string()).result() {
        Err(FetchError::Failed(e)) => assert_eq!(e, "x"),
        other => panic!("unexpected {:?}", other),
    }
    assert_eq!(Fetch::<u32, String>::Finished(5).as_opt(), Some(5));
    assert_eq!(Fetch::<u32, String>::Loading.as_opt(), None);
    assert_eq!(Fetch::<u32, String>::Error("e".to_string()).as_opt(), None);
    assert_eq!(w.unwrap_or_default(), 0);
    assert_eq!(Fetch::<u32, String>::Loading.unwrap_or_default(), 0);
    assert_eq!(Fetch::<u32, String>::Error("e".to_string()).unwrap_or_default(), 0);
    assert_eq!(Fetch::<u32, String>::Finished(9).unwrap_or_default(), 9);
}

#[test]
fn fetch_equality_is_by_state() {
    assert!(Fetch::<u32, String>::Finished(1) == Fetch::Finished(2));
    assert!(Fetch::<u32, String>::Error("a".to_string()) == Fetch::Error("b".to_string()));
    assert!(Fetch::<u32, String>::Waiting != Fetch::Loading);
    assert!(Fetch::<u32, String>::Finished(1) != Fetch::Error("1".to_string()));
}

#[test]
fn fetch_transitions_are_monotonic() {
    let mut cell: Fetch<u32, String> = Fetch::default();
    cell.settle(Ok(1));
    assert!(matches!(cell, Fetch::Waiting));
    cell.begin();
    assert!(matches!(cell, Fetch::Loading));
    cell.settle(Ok(7));
    assert!(matches!(cell, Fetch::Finished(7)));
    cell.settle(Err("late".to_string()));
    assert!(matches!(cell, Fetch::Finished(7)));
    cell.settle(Ok(8));
    assert!(matches!(cell, Fetch::Finished(7)));
    cell.begin();
    assert!(matches!(cell, Fetch::Loading));
    cell.settle(Err("boom".to_string()));
    assert!(matches!(cell, Fetch::Error(ref e) if e == "boom"));
    cell.settle(Ok(3));
    assert!(matches!(cell, Fetch::Error(_)));
}

#[test]
fn completion_channel_collapses() {
    assert_eq!(collapse::<u32, String>(Some(Ok(4)), "dropped".to_string()), Ok(4));
    assert_eq!(collapse::<u32, String>(Some(Err("bad".to_string())), "dropped".to_string()), Err("bad".to_string()));
    assert_eq!(collapse::<u32, String>(None, "dropped".to_string()), Err("dropped".to_string()));
}

#[test]
fn names_with_slash_are_refused() {
    let slashed = EndpointInfo { name: "static/time".to_string(), idempotent: false, unit_data: true };
    let entries = vec![EndpointInfo::new("Greet", false, true), slashed.clone(), slashed];
    assert_eq!(Registry::new(entries).unwrap_err(), RegistryError::NotASegment(1));
    assert!(!EndpointInfo::new("a/b c", false, true).name.contains('/'));
}
