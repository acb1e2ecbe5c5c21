use retroqwest::decl::{AttrDecl, MethodDecl, ParamDecl, TraitDecl, TraitItemDecl};
use retroqwest::transform::{expand, get_att, GenErrorKind, HttpArg, HttpMethodAttribute};

fn attr(segments: &[&str], arg: Option<&str>) -> AttrDecl {
    AttrDecl {
        segments: segments.iter().map(|s| s.to_string()).collect(),
        arg: arg.map(|s| s.to_string()),
    }
}

fn param(name: &str, markers: &[&str]) -> ParamDecl {
    ParamDecl {
        name: name.to_string(),
        attrs: markers.iter().map(|m| attr(&[m], None)).collect(),
    }
}

fn method(name: &str, attrs: Vec<AttrDecl>, params: Vec<ParamDecl>) -> MethodDecl {
    MethodDecl { name: name.to_string(), attrs, params, has_default_body: false }
}

fn http_bin() -> TraitDecl {
    TraitDecl {
        name: "HttpBin".to_string(),
        attrs: vec![],
        items: vec![
            TraitItemDecl::Method(method(
                "get_anything",
                vec![attr(&["http", "get"], Some("/anything"))],
                vec![],
            )),
            TraitItemDecl::Method(method(
                "get_by_name",
                vec![attr(&["http", "get"], Some("/anything/{name}"))],
                vec![param("name", &[])],
            )),
            TraitItemDecl::Method(method(
                "post_to_name",
                vec![attr(&["http", "post"], Some("/anything/{name}"))],
                vec![param("name", &[]), param("q", &["query"]), param("body", &["json"])],
            )),
            TraitItemDecl::Method(method(
                "get_multiple_queries",
                vec![attr(&["http", "get"], Some("/anything"))],
                vec![param("q", &["query"]), param("q2", &["query"])],
            )),
        ],
    }
}

#[test]
fn test_expand_generates_client() {
    let generated = expand(http_bin()).unwrap();
    assert_eq!(generated.client_name, "HttpBinClient");
    assert_eq!(generated.methods.len(), 4);

    let p0 = &generated.methods[0];
    assert_eq!(p0.name, "get_anything");
    assert_eq!(p0.method, "get");
    assert_eq!(p0.uri, "/anything");
    assert!(p0.args.is_empty());

    let p1 = &generated.methods[1];
    assert_eq!(p1.method, "get");
    assert_eq!(p1.uri, "/anything/{name}");
    assert_eq!(p1.args, vec![HttpArg::Uri { arg: "name".to_string() }]);

    let p2 = &generated.methods[2];
    assert_eq!(p2.method, "post");
    assert_eq!(
        p2.args,
        vec![
            HttpArg::Uri { arg: "name".to_string() },
            HttpArg::Query { name: "q".to_string(), arg: "q".to_string() },
            HttpArg::JsonBody { arg: "body".to_string() },
        ]
    );

    let p3 = &generated.methods[3];
    assert_eq!(
        p3.args,
        vec![
            HttpArg::Query { name: "q".to_string(), arg: "q".to_string() },
            HttpArg::Query { name: "q2".to_string(), arg: "q2".to_string() },
        ]
    );
}

#[test]
fn test_expand_strips_markers_and_http_attribute() {
    let generated = expand(http_bin()).unwrap();
    // the emitted declaration is marked for asynchronous trait dispatch
    assert_eq!(generated.decl.attrs.len(), 1);
    assert_eq!(
        generated.decl.attrs[0].segments,
        vec![
            "retroqwest".to_string(),
            "async_trait".to_string(),
            "async_trait".to_string(),
        ]
    );
    for item in &generated.decl.items {
        match item {
            TraitItemDecl::Method(m) => {
                assert!(m.attrs.is_empty());
                for p in &m.params {
                    assert!(p.attrs.is_empty());
                }
            }
            TraitItemDecl::Other => {}
        }
    }
}

#[test]
fn test_missing_http_attribute_fails_generation() {
    let def = TraitDecl {
        name: "Bare".to_string(),
        attrs: vec![],
        items: vec![TraitItemDecl::Method(method("naked", vec![], vec![]))],
    };
    let err = expand(def).unwrap_err();
    assert_eq!(err.kind, GenErrorKind::MissingHttpAttribute);
    assert_eq!(err.method, "naked");
    assert_eq!(err.message(), "Missing http method attribute");
}

#[test]
fn test_default_body_fails_generation() {
    let mut m = method("lazy", vec![attr(&["http", "get"], Some("/x"))], vec![]);
    m.has_default_body = true;
    let def = TraitDecl { name: "Defaulted".to_string(), attrs: vec![], items: vec![TraitItemDecl::Method(m)] };
    let err = expand(def).unwrap_err();
    assert_eq!(err.kind, GenErrorKind::DefaultBody);
    assert_eq!(err.message(), "retroquest trait methods cannot have defaults");
}

#[test]
fn test_attribute_without_verb_segment_fails() {
    let def = TraitDecl {
        name: "Short".to_string(),
        attrs: vec![],
        items: vec![TraitItemDecl::Method(method(
            "short",
            vec![attr(&["http"], Some("/x"))],
            vec![],
        ))],
    };
    let err = expand(def).unwrap_err();
    assert_eq!(err.kind, GenErrorKind::MissingVerbSegment);
    assert_eq!(err.message(), "http attribute missing method");
}

#[test]
fn test_attribute_without_path_literal_fails() {
    let def = TraitDecl {
        name: "NoPath".to_string(),
        attrs: vec![],
        items: vec![TraitItemDecl::Method(method(
            "no_path",
            vec![attr(&["http", "get"], None)],
            vec![],
        ))],
    };
    let err = expand(def).unwrap_err();
    assert_eq!(err.kind, GenErrorKind::MissingPathTemplate);
    assert_eq!(err.message(), "expected string literal");
}

#[test]
fn test_first_error_wins() {
    let def = TraitDecl {
        name: "Broken".to_string(),
        attrs: vec![],
        items: vec![
            TraitItemDecl::Method(method("first_bad", vec![], vec![])),
            TraitItemDecl::Method(method("second_bad", vec![attr(&["http"], Some("/x"))], vec![])),
        ],
    };
    let err = expand(def).unwrap_err();
    assert_eq!(err.kind, GenErrorKind::MissingHttpAttribute);
    assert_eq!(err.method, "first_bad");
}

#[test]
fn test_non_method_items_pass_through() {
    let def = TraitDecl {
        name: "Mixed".to_string(),
        attrs: vec![],
        items: vec![
            TraitItemDecl::Other,
            TraitItemDecl::Method(method(
                "get_it",
                vec![attr(&["http", "get"], Some("/it"))],
                vec![],
            )),
        ],
    };
    let generated = expand(def).unwrap();
    assert_eq!(generated.decl.items.len(), 2);
    assert!(matches!(generated.decl.items[0], TraitItemDecl::Other));
    assert_eq!(generated.methods.len(), 1);
}

#[test]
fn test_get_att_removes_first_match_only() {
    let mut attrs = vec![
        attr(&["allow"], None),
        attr(&["http", "get"], Some("/a")),
        attr(&["http", "post"], Some("/b")),
    ];
    let found = get_att(&mut attrs, "http").unwrap();
    assert_eq!(found.segments, vec!["http".to_string(), "get".to_string()]);
    assert_eq!(attrs.len(), 2);
    assert_eq!(attrs[0].segments, vec!["allow".to_string()]);
    assert_eq!(attrs[1].segments, vec!["http".to_string(), "post".to_string()]);
    assert!(get_att(&mut attrs, "json").is_none());
    assert_eq!(attrs.len(), 2);
}

#[test]
fn test_try_from_extracts_verb_and_template() {
    let a = attr(&["http", "put"], Some("/things/{id}"));
    let parsed = HttpMethodAttribute::try_from(&a, "update_thing").unwrap();
    assert_eq!(parsed.method, "put");
    assert_eq!(parsed.uri, "/things/{id}");
}

#[test]
fn test_json_marker_takes_precedence_over_query() {
    let mut p = param("payload", &["json", "query"]);
    let classified = HttpArg::parse(&mut p);
    assert_eq!(classified, HttpArg::JsonBody { arg: "payload".to_string() });
    // only the marker that classified the parameter is stripped
    assert_eq!(p.attrs.len(), 1);
    assert_eq!(p.attrs[0].segments, vec!["query".to_string()]);
}
