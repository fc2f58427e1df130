use iotedged::error::ErrorKind;
use iotedged::router::{Dispatch, Method, Router};
use iotedged::version::Version;

fn sample_router() -> iotedged::router::Recognizer {
    Router::new()
        .route(Method::Get, Version::Version2018_12_30, "/modules/:name")
        .unwrap()
        .finish()
}

#[test]
fn happy_path_capture() {
    let rec = sample_router();
    match rec.dispatch(&Method::Get, "/modules/foo", "api-version=2018-12-30") {
        Dispatch::Matched(idx, params) => {
            assert_eq!(idx, 0);
            assert_eq!(params.find("name").unwrap(), "foo");
            assert!(params.find("other").is_none());
        }
        _ => panic!("expected a match"),
    }
}

#[test]
fn version_miss_is_bad_request() {
    let rec = sample_router();
    assert!(matches!(
        rec.dispatch(&Method::Get, "/modules/foo", "api-version=2017-01-01"),
        Dispatch::BadRequest
    ));
}

#[test]
fn missing_api_version_is_bad_request() {
    let rec = sample_router();
    assert!(matches!(rec.dispatch(&Method::Get, "/modules/foo", ""), Dispatch::BadRequest));
    assert!(matches!(
        rec.dispatch(&Method::Get, "/modules/foo", "foo=bar&x=y"),
        Dispatch::BadRequest
    ));
}

#[test]
fn path_miss_is_not_found() {
    let rec = sample_router();
    assert!(matches!(
        rec.dispatch(&Method::Get, "/other", "api-version=2018-12-30"),
        Dispatch::NotFound
    ));
}

#[test]
fn method_miss_is_method_not_allowed() {
    let rec = sample_router();
    assert!(matches!(
        rec.dispatch(&Method::Post, "/modules/foo", "api-version=2018-12-30"),
        Dispatch::MethodNotAllowed
    ));
}

#[test]
fn first_api_version_occurrence_wins() {
    let rec = sample_router();
    assert!(matches!(
        rec.dispatch(&Method::Get, "/modules/foo", "api-version=2018-12-30&api-version=2017-01-01"),
        Dispatch::Matched(_, _)
    ));
    assert!(matches!(
        rec.dispatch(&Method::Get, "/modules/foo", "api-version=bad&api-version=2018-12-30"),
        Dispatch::BadRequest
    ));
}

#[test]
fn registration_order_decides() {
    let rec = Router::new()
        .route(Method::Get, Version::Version2018_12_30, "/modules/:name")
        .unwrap()
        .route(Method::Get, Version::Version2018_12_30, "/modules/restart")
        .unwrap()
        .finish();
    // The capture route was registered first, so it wins even for the
    // literal path of the second route.
    match rec.dispatch(&Method::Get, "/modules/restart", "api-version=2018-12-30") {
        Dispatch::Matched(idx, params) => {
            assert_eq!(idx, 0);
            assert_eq!(params.find("name").unwrap(), "restart");
        }
        _ => panic!("expected a match"),
    }
}

#[test]
fn dispatch_is_deterministic() {
    let rec1 = sample_router();
    let rec2 = sample_router();
    for (method, path, query) in [
        (Method::Get, "/modules/foo", "api-version=2018-12-30"),
        (Method::Post, "/modules/foo", "api-version=2018-12-30"),
        (Method::Get, "/other", "api-version=2018-12-30"),
        (Method::Get, "/modules/foo", "api-version=junk"),
    ] {
        let a = rec1.dispatch(&method, path, query);
        let b = rec2.dispatch(&method, path, query);
        match (a, b) {
            (Dispatch::Matched(i, p), Dispatch::Matched(j, q)) => {
                assert_eq!(i, j);
                assert_eq!(p.entries, q.entries);
            }
            (Dispatch::BadRequest, Dispatch::BadRequest) => {}
            (Dispatch::NotFound, Dispatch::NotFound) => {}
            (Dispatch::MethodNotAllowed, Dispatch::MethodNotAllowed) => {}
            _ => panic!("outcomes diverged"),
        }
    }
}

#[test]
fn duplicate_route_rejected_at_build_time() {
    let r = Router::new()
        .route(Method::Get, Version::Version2018_12_30, "/modules/:name")
        .unwrap()
        .route(Method::Get, Version::Version2018_12_30, "/modules/:name");
    assert_eq!(r.err().unwrap().kind(), ErrorKind::Other);
}

#[test]
fn same_pattern_other_method_or_version_accepted() {
    Router::new()
        .route(Method::Get, Version::Version2018_12_30, "/modules/:name")
        .unwrap()
        .route(Method::Post, Version::Version2018_12_30, "/modules/:name")
        .unwrap()
        .route(Method::Get, Version::Version2018_06_28, "/modules/:name")
        .unwrap()
        .finish();
}

#[test]
fn unknown_version_string_is_a_build_time_error() {
    let r = Router::new().route_str(Method::Get, "2017-01-01", "/modules/:name");
    let e = r.err().unwrap();
    assert_eq!(e.kind(), ErrorKind::UnsupportedApiVersion);
}

#[test]
fn multi_capture_pattern() {
    let rec = Router::new()
        .route_str(Method::Put, "2018-06-28", "/modules/:name/logs/:tail")
        .unwrap()
        .finish();
    match rec.dispatch(&Method::Put, "/modules/edgeHub/logs/50", "api-version=2018-06-28") {
        Dispatch::Matched(_, params) => {
            assert_eq!(params.find("name").unwrap(), "edgeHub");
            assert_eq!(params.find("tail").unwrap(), "50");
        }
        _ => panic!("expected a match"),
    }
}

#[test]
fn method_helpers_register_under_their_methods() {
    let rec = Router::new()
        .get("2018-12-30", "/modules")
        .unwrap()
        .post("2018-12-30", "/modules")
        .unwrap()
        .put("2018-12-30", "/modules/:name")
        .unwrap()
        .delete("2018-12-30", "/modules/:name")
        .unwrap()
        .finish();
    assert!(matches!(
        rec.dispatch(&Method::Put, "/modules/m1", "api-version=2018-12-30"),
        Dispatch::Matched(2, _)
    ));
    assert!(matches!(
        rec.dispatch(&Method::Delete, "/modules/m1", "api-version=2018-12-30"),
        Dispatch::Matched(3, _)
    ));
    assert!(Router::new().get("2017-01-01", "/modules").is_err());
}

#[test]
fn dispatch_outcomes_map_to_error_kinds() {
    let rec = sample_router();
    let gate = rec.dispatch(&Method::Get, "/modules/foo", "");
    assert_eq!(gate.error_kind(), Some(ErrorKind::InvalidApiVersion));
    let miss = rec.dispatch(&Method::Get, "/other", "api-version=2018-12-30");
    assert_eq!(miss.error_kind(), Some(ErrorKind::NotFound));
    let method = rec.dispatch(&Method::Post, "/modules/foo", "api-version=2018-12-30");
    assert_eq!(method.error_kind(), Some(ErrorKind::MethodNotAllowed));
    let hit = rec.dispatch(&Method::Get, "/modules/foo", "api-version=2018-12-30");
    assert_eq!(hit.error_kind(), None);
}

#[test]
fn recognize_reports_status_kinds() {
    let rec = sample_router();
    let miss = rec.recognize(&Method::Get, &Version::Version2018_12_30, "/other").unwrap_err();
    assert_eq!(miss, ErrorKind::NotFound);
    let wrong_method =
        rec.recognize(&Method::Delete, &Version::Version2018_12_30, "/modules/foo").unwrap_err();
    assert_eq!(wrong_method, ErrorKind::MethodNotAllowed);
}
