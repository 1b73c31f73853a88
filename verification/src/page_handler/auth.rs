//! The login page.

use vstd::prelude::*;
use super::{entry, page_path, page_template, page_url, page_view, Handler, PageData, PageHandler, KEY_AUTH_PATH};

verus! {

/// The page that checks an account and opens a session.
#[derive(Clone, Copy, PartialEq, Eq, Debug)]
pub struct Auth {}

impl Auth {
    pub fn new() -> (r: Auth)
        ensures
            r == (Auth {}),
    {
        Auth {}
    }
}

impl PageHandler for Auth {
    fn is_get(&self) -> (r: bool)
        ensures
            r,
    {
        true
    }

    fn is_post(&self) -> (r: bool)
        ensures
            r,
    {
        true
    }

    fn path(&self) -> (r: &str)
        ensures
            r@ == page_path(Handler::Auth(*self)),
    {
        proof {
            reveal_strlit("auth");
        }
        let r = "auth";
        assert(r@ =~= page_path(Handler::Auth(*self)));
        r
    }

    fn template(&self) -> (r: &str)
        ensures
            r@ == page_template(Handler::Auth(*self)),
    {
        proof {
            reveal_strlit("auth");
        }
        let r = "auth";
        assert(r@ =~= page_template(Handler::Auth(*self)));
        r
    }

    fn bind_url(&self) -> (r: &str)
        ensures
            r@ == page_url(Handler::Auth(*self)),
    {
        proof {
            reveal_strlit("/auth");
        }
        let r = "/auth";
        assert(r@ =~= page_url(Handler::Auth(*self)));
        r
    }
}


/// What `str::to_lowercase` returns for a text: its lowercase form under
/// Unicode case mapping, which depends on the text alone.
pub uninterp spec fn lowercase(s: Seq<char>) -> Seq<char>;

/// `str::to_lowercase` from std. Its result is named `lowercase` of the
/// argument; the Unicode case mapping it applies is not written out.
#[verifier::external_body]
fn to_lowercase(s: &str) -> (r: String)
    ensures
        r@ == lowercase(s@),
{
    s.to_lowercase()
}

/// The text of a form field, empty when the field is missing.
pub open spec fn field_text(v: Option<String>) -> Seq<char> {
    match v {
        Some(t) => t@,
        None => Seq::empty(),
    }
}

/// The account name or password as the store is asked for it: the form
/// field, or the empty text when it is missing, in lowercase.
pub fn login_credential(field: Option<String>) -> (r: String)
    ensures
        r@ == lowercase(field_text(field)),
        field matches Some(t) ==> r@ == lowercase(t@),
        field is None ==> r@ == lowercase(Seq::<char>::empty()),
{
    match field {
        Some(t) => {
            let r = to_lowercase(t.as_str());
            r
        },
        None => {
            let e = "";
            proof {
                reveal_strlit("");
            }
            assert(e@ =~= Seq::<char>::empty());
            to_lowercase(e)
        },
    }
}

/// Law: the credential sent to the store is the lowercase form of the whole
/// form field, character for character as typed, or of the empty text when
/// the field is missing.
pub proof fn credential_is_the_whole_field(t: String)
    ensures
        field_text(Some(t)) == t@,
        field_text(None) == Seq::<char>::empty(),
{
}

/// Whether a login is granted for the number of matching accounts the store
/// reported (`None` when the store could not answer).
pub fn login_accepted(count: Option<i64>) -> (r: bool)
    ensures
        r == (match count {
            Some(n) => n > 0,
            None => false,
        }),
{
    let n: i64 = match count {
        Some(n) => n,
        None => 0,
    };
    n > 0
}

/// The login form page, whose form posts to `auth_url`.
pub fn auth_form_page(auth_url: &str) -> (r: PageData)
    ensures
        page_view(&r) == (page_template(Handler::Auth(Auth {})), seq![(KEY_AUTH_PATH@, auth_url@)]),
{
    let mut entries: Vec<(String, String)> = Vec::new();
    entries.push(entry(KEY_AUTH_PATH, String::from_str(auth_url)));
    let r = PageData { template: String::from_str(Auth::new().template()), entries };
    assert(page_view(&r).1 =~= seq![(KEY_AUTH_PATH@, auth_url@)]);
    r
}
} // verus!
