//! The four pages of the service, how requests are routed to them, and the
//! data their templates are rendered with.

use vstd::prelude::*;

pub mod auth;
pub mod detail;
pub mod lookup;

pub mod top;
pub mod translate;

use self::auth::Auth;
use self::detail::Detail;
use self::top::Top;
use self::translate::Translate;
use crate::text::{join3, same_text};

verus! {

/// What every page tells the router about itself.
pub trait PageHandler {
    /// Whether the page answers GET requests.
    fn is_get(&self) -> bool;

    /// Whether the page answers POST requests.
    fn is_post(&self) -> bool;

    /// The first segment of the request path that selects the page.
    fn path(&self) -> &str;

    /// The name of the template the page is rendered with.
    fn template(&self) -> &str;

    /// The URL the page is registered at.
    fn bind_url(&self) -> &str;
}

/// One of the pages of the service.
#[derive(Clone, Copy, PartialEq, Eq, Debug)]
pub enum Handler {
    Top(Top),
    Auth(Auth),
    Detail(Detail),
    Translate(Translate),
}

/// Whether page `h` answers GET requests.
pub open spec fn answers_get(h: Handler) -> bool {
    match h {
        Handler::Top(_) => true,
        Handler::Auth(_) => true,
        Handler::Detail(_) => true,
        Handler::Translate(_) => false,
    }
}

/// Whether page `h` answers POST requests.
pub open spec fn answers_post(h: Handler) -> bool {
    match h {
        Handler::Top(_) => false,
        Handler::Auth(_) => true,
        Handler::Detail(_) => false,
        Handler::Translate(_) => true,
    }
}

/// The path segment that selects page `h`.
pub open spec fn page_path(h: Handler) -> Seq<char> {
    match h {
        Handler::Top(_) => Seq::<char>::empty(),
        Handler::Auth(_) => seq!['a', 'u', 't', 'h'],
        Handler::Detail(_) => seq!['d', 'e', 't', 'a', 'i', 'l'],
        Handler::Translate(_) => seq!['a', 'n', 's', 'w', 'e', 'r'],
    }
}

/// The template page `h` is rendered with.
pub open spec fn page_template(h: Handler) -> Seq<char> {
    match h {
        Handler::Top(_) => seq!['i', 'n', 'd', 'e', 'x'],
        Handler::Auth(_) => seq!['a', 'u', 't', 'h'],
        Handler::Detail(_) => seq!['d', 'e', 't', 'a', 'i', 'l'],
        Handler::Translate(_) => seq!['a', 'n', 's', 'w', 'e', 'r'],
    }
}

/// The URL page `h` is registered at: `/` followed by its path.
pub open spec fn page_url(h: Handler) -> Seq<char> {
    seq!['/'] + page_path(h)
}

impl PageHandler for Handler {
    fn is_get(&self) -> (r: bool)
        ensures
            r == answers_get(*self),
    {
        match self {
            Handler::Top(p) => p.is_get(),
            Handler::Auth(p) => p.is_get(),
            Handler::Detail(p) => p.is_get(),
            Handler::Translate(p) => p.is_get(),
        }
    }

    fn is_post(&self) -> (r: bool)
        ensures
            r == answers_post(*self),
    {
        match self {
            Handler::Top(p) => p.is_post(),
            Handler::Auth(p) => p.is_post(),
            Handler::Detail(p) => p.is_post(),
            Handler::Translate(p) => p.is_post(),
        }
    }

    fn path(&self) -> (r: &str)
        ensures
            r@ == page_path(*self),
    {
        match self {
            Handler::Top(p) => p.path(),
            Handler::Auth(p) => p.path(),
            Handler::Detail(p) => p.path(),
            Handler::Translate(p) => p.path(),
        }
    }

    fn template(&self) -> (r: &str)
        ensures
            r@ == page_template(*self),
    {
        match self {
            Handler::Top(p) => p.template(),
            Handler::Auth(p) => p.template(),
            Handler::Detail(p) => p.template(),
            Handler::Translate(p) => p.template(),
        }
    }

    fn bind_url(&self) -> (r: &str)
        ensures
            r@ == page_url(*self),
    {
        match self {
            Handler::Top(p) => p.bind_url(),
            Handler::Auth(p) => p.bind_url(),
            Handler::Detail(p) => p.bind_url(),
            Handler::Translate(p) => p.bind_url(),
        }
    }
}

/// The pages of the service, in the order the router consults them.
pub open spec fn all_pages() -> Seq<Handler> {
    seq![
        Handler::Top(Top {}),
        Handler::Auth(Auth {}),
        Handler::Detail(Detail {}),
        Handler::Translate(Translate {}),
    ]
}

/// The pages of the service: the word list, the login, the detail view and
/// the translation answer.
pub fn create_handlers() -> (r: Vec<Handler>)
    ensures
        r@ == all_pages(),
{
    let mut r: Vec<Handler> = Vec::new();
    r.push(Handler::Top(Top::new()));
    r.push(Handler::Auth(Auth::new()));
    r.push(Handler::Detail(Detail::new()));
    r.push(Handler::Translate(Translate::new()));
    assert(r@ =~= all_pages());
    r
}

/// The page that answers a request whose first path segment is `path`: the
/// first of `pages` with that path, or the login page when none has it.
pub open spec fn selected(pages: Seq<Handler>, path: Seq<char>) -> Handler
    decreases pages.len(),
{
    if pages.len() == 0 {
        Handler::Auth(Auth {})
    } else if page_path(pages[0]) == path {
        pages[0]
    } else {
        selected(pages.drop_first(), path)
    }
}

/// Chooses the page for a request whose first path segment is `path`.
pub fn select_handler(pages: &Vec<Handler>, path: &str) -> (r: Handler)
    ensures
        r == selected(pages@, path@),
{
    let mut i: usize = 0;
    assert(pages@.skip(0) =~= pages@);
    while i < pages.len()
        invariant
            i <= pages.len(),
            selected(pages@, path@) == selected(pages@.skip(i as int), path@),
        decreases pages.len() - i,
    {
        let h = pages[i];
        assert(pages@.skip(i as int)[0] == h);
        if same_text(h.path(), path) {
            return h;
        }
        assert(pages@.skip(i as int).drop_first() =~= pages@.skip(i + 1));
        i += 1;
    }
    Handler::Auth(Auth::new())
}

/// Law: among the pages of the service, each page's own path selects that
/// page, and any other path selects the login page.
pub proof fn each_page_answers_its_path(path: Seq<char>)
    ensures
        forall|i: int|
            0 <= i < all_pages().len() ==> selected(all_pages(), page_path(#[trigger] all_pages()[i]))
                == all_pages()[i],
        (forall|i: int| 0 <= i < all_pages().len() ==> page_path(#[trigger] all_pages()[i]) != path)
            ==> selected(all_pages(), path) == Handler::Auth(Auth {}),
{
    let ps = all_pages();
    let t1 = ps.drop_first();
    let t2 = t1.drop_first();
    let t3 = t2.drop_first();
    let t4 = t3.drop_first();
    assert(t1 =~= seq![ps[1], ps[2], ps[3]]);
    assert(t2 =~= seq![ps[2], ps[3]]);
    assert(t3 =~= seq![ps[3]]);
    assert(t4 =~= Seq::<Handler>::empty());
    assert forall|x: Seq<char>|
        #![trigger selected(ps, x)]
        selected(ps, x) == (if page_path(ps[0]) == x {
            ps[0]
        } else if page_path(ps[1]) == x {
            ps[1]
        } else if page_path(ps[2]) == x {
            ps[2]
        } else if page_path(ps[3]) == x {
            ps[3]
        } else {
            Handler::Auth(Auth {})
        }) by {
        assert(selected(t4, x) == Handler::Auth(Auth {}));
        assert(selected(t3, x) == (if page_path(ps[3]) == x { ps[3] } else { selected(t4, x) }));
        assert(selected(t2, x) == (if page_path(ps[2]) == x { ps[2] } else { selected(t3, x) }));
        assert(selected(t1, x) == (if page_path(ps[1]) == x { ps[1] } else { selected(t2, x) }));
    }
    assert(page_path(ps[0]) != page_path(ps[1])) by {
        assert(page_path(ps[0]).len() != page_path(ps[1]).len());
    }
    assert(page_path(ps[0]) != page_path(ps[2])) by {
        assert(page_path(ps[0]).len() != page_path(ps[2]).len());
    }
    assert(page_path(ps[0]) != page_path(ps[3])) by {
        assert(page_path(ps[0]).len() != page_path(ps[3]).len());
    }
    assert(page_path(ps[1]) != page_path(ps[2])) by {
        assert(page_path(ps[1]).len() != page_path(ps[2]).len());
    }
    assert(page_path(ps[1]) != page_path(ps[3])) by {
        assert(page_path(ps[1]).len() != page_path(ps[3]).len());
    }
    assert(page_path(ps[2]) != page_path(ps[3])) by {
        assert(page_path(ps[2])[0] != page_path(ps[3])[0]);
    }
    assert(selected(ps, page_path(ps[0])) == ps[0]);
    assert(selected(ps, page_path(ps[1])) == ps[1]);
    assert(selected(ps, page_path(ps[2])) == ps[2]);
    assert(selected(ps, page_path(ps[3])) == ps[3]);
    assert(selected(ps, path) == Handler::Auth(Auth {}) || exists|i: int|
        0 <= i < 4 && page_path(ps[i]) == path);
}

/// Whether page `h` is shown only to requests with a live session: every
/// page but the login page.
pub open spec fn needs_session(h: Handler) -> bool {
    !(h is Auth)
}

/// The page that answers a request for page `h`: `h` itself, or the login
/// page when `h` needs a session and the request has none.
pub open spec fn shown_page(h: Handler, authorized: bool) -> Handler {
    if needs_session(h) && !authorized {
        Handler::Auth(Auth {})
    } else {
        h
    }
}

/// Whether page `h` is shown only to requests with a live session.
pub fn requires_session(h: &Handler) -> (r: bool)
    ensures
        r == needs_session(*h),
{
    match h {
        Handler::Auth(_) => false,
        _ => true,
    }
}

/// The page that answers a request for page `h`, given whether the request
/// has a live session.
pub fn responding_page(h: Handler, authorized: bool) -> (r: Handler)
    ensures
        r == shown_page(h, authorized),
{
    if requires_session(&h) && !authorized {
        Handler::Auth(Auth::new())
    } else {
        h
    }
}

/// Law: a request without a live session is answered by the login page,
/// whatever page it asks for; one with a live session gets the page it asks
/// for.
pub proof fn login_guards_the_pages(h: Handler, authorized: bool)
    ensures
        !authorized ==> shown_page(h, authorized) == Handler::Auth(Auth {}),
        authorized ==> shown_page(h, authorized) == h,
{
}

/// Request methods a page can be registered for.
#[derive(Clone, Copy, PartialEq, Eq, Debug)]
pub enum Method {
    Get,
    Post,
}

/// A registration with the router: method, URL and template name.
#[derive(Debug, PartialEq, Eq)]
pub struct Route {
    pub method: Method,
    pub url: String,
    pub template: String,
}

/// The registrations of one page: GET first when it answers GET, then POST
/// when it answers POST.
pub open spec fn routes_for(h: Handler) -> Seq<(Method, Seq<char>, Seq<char>)> {
    (if answers_get(h) {
        seq![(Method::Get, page_url(h), page_template(h))]
    } else {
        Seq::empty()
    }) + (if answers_post(h) {
        seq![(Method::Post, page_url(h), page_template(h))]
    } else {
        Seq::empty()
    })
}

/// The registrations of all `pages`, page by page.
pub open spec fn routes_of(pages: Seq<Handler>) -> Seq<(Method, Seq<char>, Seq<char>)>
    decreases pages.len(),
{
    if pages.len() == 0 {
        Seq::empty()
    } else {
        routes_of(pages.drop_last()) + routes_for(pages.last())
    }
}

/// The view of a registration.
pub open spec fn route_view(r: Route) -> (Method, Seq<char>, Seq<char>) {
    (r.method, r.url@, r.template@)
}

fn route(method: Method, h: &Handler) -> (r: Route)
    ensures
        route_view(r) == (method, page_url(*h), page_template(*h)),
{
    Route { method, url: String::from_str(h.bind_url()), template: String::from_str(h.template()) }
}

/// The router registrations for `pages`.
pub fn routes(pages: &Vec<Handler>) -> (r: Vec<Route>)
    ensures
        r@.map_values(|x: Route| route_view(x)) == routes_of(pages@),
{
    let mut r: Vec<Route> = Vec::new();
    let mut i: usize = 0;
    while i < pages.len()
        invariant
            i <= pages.len(),
            r@.map_values(|x: Route| route_view(x)) == routes_of(pages@.take(i as int)),
        decreases pages.len() - i,
    {
        let h = pages[i];
        let ghost before = r@.map_values(|x: Route| route_view(x));
        assert(pages@.take(i + 1).drop_last() =~= pages@.take(i as int));
        if h.is_get() {
            r.push(route(Method::Get, &h));
        }
        let ghost mid = r@.map_values(|x: Route| route_view(x));
        assert(mid =~= before + (if answers_get(h) {
            seq![(Method::Get, page_url(h), page_template(h))]
        } else {
            Seq::empty()
        }));
        if h.is_post() {
            r.push(route(Method::Post, &h));
        }
        assert(r@.map_values(|x: Route| route_view(x)) =~= mid + (if answers_post(h) {
            seq![(Method::Post, page_url(h), page_template(h))]
        } else {
            Seq::empty()
        }));
        assert(r@.map_values(|x: Route| route_view(x)) =~= routes_of(pages@.take(i + 1)));
        i += 1;
    }
    assert(pages@.take(i as int) =~= pages@);
    r
}


/// Template key of the URL that translation requests are posted to.
pub const KEY_TRANSLATE_PATH: &'static str = "translate_path";

/// Template key of the quoted URL prefix of the detail page.
pub const KEY_DETAIL_PATH: &'static str = "detail_path";

/// Template key of the list of translated words.
pub const KEY_LIST: &'static str = "list";

/// Template key of the URL the login form is posted to.
pub const KEY_AUTH_PATH: &'static str = "authrized_path";

/// Template key of the URL of the word list.
pub const KEY_LIST_PATH: &'static str = "list_path";

/// Template key of the message shown on a page.
pub const KEY_MESSAGE: &'static str = "message";

/// A page to render: the template name and the values it is filled with.
#[derive(Debug, PartialEq, Eq)]
pub struct PageData {
    pub template: String,
    pub entries: Vec<(String, String)>,
}

/// The view of a page: template name and key/value pairs.
pub open spec fn page_view(p: &PageData) -> (Seq<char>, Seq<(Seq<char>, Seq<char>)>) {
    (p.template@, p.entries@.map_values(|e: (String, String)| (e.0@, e.1@)))
}

/// A key/value pair of a page.
pub fn entry(key: &str, value: String) -> (r: (String, String))
    ensures
        r.0@ == key@,
        r.1@ == value@,
{
    (String::from_str(key), value)
}

/// `[` + `s` + `]`: a JSON array around already formatted items.
pub open spec fn bracketed(s: Seq<char>) -> Seq<char> {
    seq!['['] + s + seq![']']
}

/// `'` + `url` + `?word=` + `'`: the quoted prefix of detail links.
pub open spec fn quoted_detail_link(url: Seq<char>) -> Seq<char> {
    seq!['\''] + url + seq!['?', 'w', 'o', 'r', 'd', '='] + seq!['\'']
}

/// Wraps `s` in square brackets.
pub fn bracket(s: &str) -> (r: String)
    ensures
        r@ == bracketed(s@),
{
    proof {
        reveal_strlit("[");
        reveal_strlit("]");
    }
    join3("[", s, "]")
}

/// The quoted detail link prefix for the detail page at `url`.
pub fn detail_link(url: &str) -> (r: String)
    ensures
        r@ == quoted_detail_link(url@),
{
    proof {
        reveal_strlit("'");
        reveal_strlit("?word='");
    }
    let r = join3("'", url, "?word='");
    assert(r@ =~= quoted_detail_link(url@));
    r
}

/// The word list page: where to post translations, the detail link
/// prefix made from `detail_url`, and the list of translated words.
pub open spec fn index_page_view(answer_url: Seq<char>, detail_url: Seq<char>, words: Seq<char>)
    -> (Seq<char>, Seq<(Seq<char>, Seq<char>)>)
{
    (
        page_template(Handler::Top(Top {})),
        seq![
            (KEY_TRANSLATE_PATH@, answer_url),
            (KEY_DETAIL_PATH@, quoted_detail_link(detail_url)),
            (KEY_LIST@, bracketed(words)),
        ],
    )
}

/// Builds the word list page from the answer URL, the detail URL and the
/// comma-separated translated words.
pub fn index_page(answer_url: &str, detail_url: &str, words: &str) -> (r: PageData)
    ensures
        page_view(&r) == index_page_view(answer_url@, detail_url@, words@),
{
    let mut entries: Vec<(String, String)> = Vec::new();
    entries.push(entry(KEY_TRANSLATE_PATH, String::from_str(answer_url)));
    entries.push(entry(KEY_DETAIL_PATH, detail_link(detail_url)));
    entries.push(entry(KEY_LIST, bracket(words)));
    let template = String::from_str(Handler::Top(Top::new()).template());
    let r = PageData { template, entries };
    assert(page_view(&r).1 =~= index_page_view(answer_url@, detail_url@, words@).1);
    r
}

} // verus!
