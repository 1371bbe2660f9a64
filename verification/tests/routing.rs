use tollbooth::config::{RouteEntry, RouteMode};
use tollbooth::gate::match_route;

#[test]
fn match_exact_route() {
    let routes = vec![RouteEntry {
        path: "/api/joke".into(),
        method: Some("GET".into()),
        price: "0.001".into(),
        mode: RouteMode::Charge,
        deposit: None,
    }];
    assert!(match_route("/api/joke", "GET", &routes).is_some());
    assert!(match_route("/api/joke", "POST", &routes).is_none());
    assert!(match_route("/api/other", "GET", &routes).is_none());
}

#[test]
fn match_wildcard_route() {
    let routes = vec![RouteEntry {
        path: "/api/data/*".into(),
        method: None,
        price: "0.01".into(),
        mode: RouteMode::Session,
        deposit: Some("0.1".into()),
    }];
    assert!(match_route("/api/data/page1", "GET", &routes).is_some());
    assert!(match_route("/api/data/", "POST", &routes).is_some());
    assert!(match_route("/api/other", "GET", &routes).is_none());
}

#[test]
fn no_method_filter_matches_any() {
    let routes = vec![RouteEntry {
        path: "/api/thing".into(),
        method: None,
        price: "0.001".into(),
        mode: RouteMode::Charge,
        deposit: None,
    }];
    assert!(match_route("/api/thing", "GET", &routes).is_some());
    assert!(match_route("/api/thing", "POST", &routes).is_some());
}

#[test]
fn method_filter_ignores_ascii_case_and_first_match_wins() {
    let routes = vec![
        RouteEntry {
            path: "/a/*".into(),
            method: Some("get".into()),
            price: "1".into(),
            mode: RouteMode::Charge,
            deposit: None,
        },
        RouteEntry {
            path: "/a/b".into(),
            method: None,
            price: "2".into(),
            mode: RouteMode::Charge,
            deposit: None,
        },
    ];
    assert_eq!(match_route("/a/b", "GET", &routes).unwrap().price, "1");
    assert_eq!(match_route("/a/b", "POST", &routes).unwrap().price, "2");
    assert!(match_route("/a", "GET", &routes).is_none());
}
