use derived_cms::ids::parse_id;
use derived_cms::routes::{routes_for, EndpointKind, HttpMethod};
use derived_cms::slug::slug;

#[test]
fn slug_normalizes_case() {
    assert_eq!(slug("Article"), "article");
    assert_eq!(slug("BlogPost"), "blog-post");
    assert_eq!(slug("My variable NAME"), "my-variable-name");
}

#[test]
fn slug_of_normalized_name_is_itself() {
    assert_eq!(slug("article"), "article");
    assert_eq!(slug("blog-post"), "blog-post");
    assert_eq!(slug(""), "");
    let once = slug("BlogPost");
    assert_eq!(slug(&once), once, "deriving again must yield the same slug");
}

#[test]
fn slug_percent_encodes_reserved_characters() {
    assert_eq!(slug("Editor's Picks"), "editor%27s-picks");
}

#[test]
fn article_routes_register_expected_paths() {
    let routes = routes_for("Article", "Articles");
    assert_eq!(routes.len(), 11);
    let expect: Vec<(HttpMethod, &str, EndpointKind)> = vec![
        (HttpMethod::Get, "/api/v1/articles", EndpointKind::ApiList),
        (HttpMethod::Get, "/api/v1/article/:id", EndpointKind::ApiGetOne),
        (HttpMethod::Post, "/api/v1/articles", EndpointKind::ApiCreate),
        (HttpMethod::Post, "/api/v1/article/:id", EndpointKind::ApiUpdate),
        (HttpMethod::Delete, "/api/v1/article/:id", EndpointKind::ApiDelete),
        (HttpMethod::Get, "/articles", EndpointKind::UiList),
        (HttpMethod::Get, "/article/:id", EndpointKind::UiGetOne),
        (HttpMethod::Post, "/article/:id", EndpointKind::UiUpdate),
        (HttpMethod::Get, "/articles/add", EndpointKind::UiAddForm),
        (HttpMethod::Post, "/articles/add", EndpointKind::UiAddSubmit),
        (HttpMethod::Post, "/article/:id/delete", EndpointKind::UiDelete),
    ];
    for (i, (method, path, kind)) in expect.into_iter().enumerate() {
        assert_eq!(routes[i].method, method, "method of route {i}");
        assert_eq!(routes[i].path, path, "path of route {i}");
        assert_eq!(routes[i].kind, kind, "kind of route {i}");
    }
}

#[test]
fn route_generation_is_deterministic() {
    let a = routes_for("BlogPost", "BlogPosts");
    let b = routes_for("BlogPost", "BlogPosts");
    assert_eq!(a, b);
}

#[test]
fn id_segments_parse_exactly_when_well_formed() {
    assert_eq!(parse_id("0"), Some(0));
    assert_eq!(parse_id("7"), Some(7));
    assert_eq!(parse_id("007"), Some(7));
    assert_eq!(parse_id("18446744073709551615"), Some(u64::MAX));
    assert_eq!(parse_id("18446744073709551616"), None, "one past the maximum");
    assert_eq!(parse_id(""), None);
    assert_eq!(parse_id("12a"), None);
    assert_eq!(parse_id("-1"), None);
    assert_eq!(parse_id("+1"), None);
    assert_eq!(parse_id(" 1"), None);
}
