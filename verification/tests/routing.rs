use hello_server::router::{route, str_eq, Method, RouteTarget};

#[test]
fn get_root_goes_to_greeting() {
    assert_eq!(route(Method::Get, "/"), RouteTarget::Root);
}

#[test]
fn post_users_goes_to_create_user() {
    assert_eq!(route(Method::Post, "/users"), RouteTarget::CreateUser);
}

#[test]
fn get_other_paths_go_to_static() {
    assert_eq!(
        route(Method::Get, "/style.css"),
        RouteTarget::StaticPage(String::from("style.css"))
    );
    assert_eq!(
        route(Method::Get, "/a/b/c.html"),
        RouteTarget::StaticPage(String::from("a/b/c.html"))
    );
    // The wildcard row also catches a GET of /users: only a POST reaches
    // the create-user handler.
    assert_eq!(
        route(Method::Get, "/users"),
        RouteTarget::StaticPage(String::from("users"))
    );
}

#[test]
fn unrouted_requests_match_nothing() {
    assert_eq!(route(Method::Post, "/"), RouteTarget::NoMatch);
    assert_eq!(route(Method::Post, "/other"), RouteTarget::NoMatch);
    assert_eq!(route(Method::Get, ""), RouteTarget::NoMatch);
    assert_eq!(route(Method::Get, "users"), RouteTarget::NoMatch);
}

#[test]
fn str_eq_compares_by_characters() {
    assert!(str_eq("", ""));
    assert!(str_eq("/users", "/users"));
    assert!(!str_eq("/users", "/user"));
    assert!(!str_eq("/user", "/users"));
    assert!(!str_eq("abc", "abd"));
    assert!(str_eq("z\u{00fc}rich", "z\u{00fc}rich"));
    assert!(!str_eq("z\u{00fc}rich", "zurich"));
}
