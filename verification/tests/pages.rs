use eng_dict::page_handler::{requires_session, responding_page};
use eng_dict::page_handler::auth::{auth_form_page, login_accepted, login_credential, Auth};
use eng_dict::page_handler::detail::{detail_message, detail_page, Detail};
use eng_dict::page_handler::top::Top;
use eng_dict::page_handler::translate::{answer_page, Translate};
use eng_dict::page_handler::{
    bracket, create_handlers, detail_link, index_page, routes, select_handler, Handler, Method,
    PageHandler,
};

fn pairs(v: &[(&str, &str)]) -> Vec<(String, String)> {
    v.iter().map(|(a, b)| (a.to_string(), b.to_string())).collect()
}

#[test]
fn handlers_in_order() {
    let hs = create_handlers();
    assert_eq!(
        hs,
        vec![
            Handler::Top(Top::new()),
            Handler::Auth(Auth::new()),
            Handler::Detail(Detail::new()),
            Handler::Translate(Translate::new()),
        ]
    );
    let paths: Vec<&str> = hs.iter().map(|h| h.path()).collect();
    assert_eq!(paths, vec!["", "auth", "detail", "answer"]);
    let templates: Vec<&str> = hs.iter().map(|h| h.template()).collect();
    assert_eq!(templates, vec!["index", "auth", "detail", "answer"]);
    let urls: Vec<&str> = hs.iter().map(|h| h.bind_url()).collect();
    assert_eq!(urls, vec!["/", "/auth", "/detail", "/answer"]);
}

#[test]
fn page_methods() {
    assert!(Top::new().is_get() && !Top::new().is_post());
    assert!(Auth::new().is_get() && Auth::new().is_post());
    assert!(Detail::new().is_get() && !Detail::new().is_post());
    assert!(!Translate::new().is_get() && Translate::new().is_post());
}

#[test]
fn each_path_selects_its_page() {
    let hs = create_handlers();
    for h in &hs {
        assert_eq!(select_handler(&hs, h.path()), *h);
    }
}

#[test]
fn unknown_path_selects_login() {
    let hs = create_handlers();
    assert_eq!(select_handler(&hs, "css"), Handler::Auth(Auth::new()));
    assert_eq!(select_handler(&hs, "Detail"), Handler::Auth(Auth::new()));
    assert_eq!(select_handler(&Vec::new(), ""), Handler::Auth(Auth::new()));
}

#[test]
fn routes_follow_methods() {
    let rs = routes(&create_handlers());
    let got: Vec<(Method, String, String)> =
        rs.into_iter().map(|r| (r.method, r.url, r.template)).collect();
    let want = vec![
        (Method::Get, "/".to_string(), "index".to_string()),
        (Method::Get, "/auth".to_string(), "auth".to_string()),
        (Method::Post, "/auth".to_string(), "auth".to_string()),
        (Method::Get, "/detail".to_string(), "detail".to_string()),
        (Method::Post, "/answer".to_string(), "answer".to_string()),
    ];
    assert_eq!(got, want);
}

#[test]
fn index_page_values() {
    let p = index_page("/answer", "/detail", "\"apple\",\"pear\"");
    assert_eq!(p.template, "index");
    assert_eq!(
        p.entries,
        pairs(&[
            ("translate_path", "/answer"),
            ("detail_path", "'/detail?word='"),
            ("list", "[\"apple\",\"pear\"]"),
        ])
    );
}

#[test]
fn auth_form_values() {
    let p = auth_form_page("/auth");
    assert_eq!(p.template, "auth");
    assert_eq!(p.entries, pairs(&[("authrized_path", "/auth")]));
}

#[test]
fn detail_values() {
    assert_eq!(detail_message("{\"phrase\":\"go\"}"), "{'phrase':'go'}");
    let p = detail_page("/answer", "/", "{\"a\":1}");
    assert_eq!(p.template, "detail");
    assert_eq!(
        p.entries,
        pairs(&[("translate_path", "/answer"), ("list_path", "/"), ("message", "{'a':1}")])
    );
}

#[test]
fn answer_values() {
    let p = answer_page("/answer", "/", "'get error x'");
    assert_eq!(p.template, "answer");
    assert_eq!(
        p.entries,
        pairs(&[("translate_path", "/answer"), ("list_path", "/"), ("message", "['get error x']")])
    );
}

#[test]
fn login_rules() {
    assert!(login_accepted(Some(1)));
    assert!(login_accepted(Some(3)));
    assert!(!login_accepted(Some(0)));
    assert!(!login_accepted(Some(-1)));
    assert!(!login_accepted(None));
    assert_eq!(login_credential(Some("Alice".to_string())), "alice");
    assert_eq!(login_credential(Some("ÄBC".to_string())), "äbc");
    assert_eq!(login_credential(None), "");
}

#[test]
fn small_formatters() {
    assert_eq!(bracket(""), "[]");
    assert_eq!(detail_link("/d"), "'/d?word='");
}

#[test]
fn login_guards_other_pages() {
    let login = Handler::Auth(Auth::new());
    for h in create_handlers() {
        assert_eq!(requires_session(&h), h != login);
        assert_eq!(responding_page(h, true), h);
        assert_eq!(responding_page(h, false), login);
    }
}
