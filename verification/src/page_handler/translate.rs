//! The translation answer page.

use vstd::prelude::*;
use super::{bracket, bracketed, entry, page_path, page_template, page_url, page_view, Handler, PageData, PageHandler, KEY_LIST_PATH, KEY_MESSAGE, KEY_TRANSLATE_PATH};

verus! {

/// The page that answers a translation request.
#[derive(Clone, Copy, PartialEq, Eq, Debug)]
pub struct Translate {}

impl Translate {
    pub fn new() -> (r: Translate)
        ensures
            r == (Translate {}),
    {
        Translate {}
    }
}

impl PageHandler for Translate {
    fn is_get(&self) -> (r: bool)
        ensures
            !r,
    {
        false
    }

    fn is_post(&self) -> (r: bool)
        ensures
            r,
    {
        true
    }

    fn path(&self) -> (r: &str)
        ensures
            r@ == page_path(Handler::Translate(*self)),
    {
        proof {
            reveal_strlit("answer");
        }
        let r = "answer";
        assert(r@ =~= page_path(Handler::Translate(*self)));
        r
    }

    fn template(&self) -> (r: &str)
        ensures
            r@ == page_template(Handler::Translate(*self)),
    {
        proof {
            reveal_strlit("answer");
        }
        let r = "answer";
        assert(r@ =~= page_template(Handler::Translate(*self)));
        r
    }

    fn bind_url(&self) -> (r: &str)
        ensures
            r@ == page_url(Handler::Translate(*self)),
    {
        proof {
            reveal_strlit("/answer");
        }
        let r = "/answer";
        assert(r@ =~= page_url(Handler::Translate(*self)));
        r
    }
}


/// The answer page: where to post translations, the word list URL, and the
/// translation result wrapped in square brackets.
pub fn answer_page(answer_url: &str, index_url: &str, message: &str) -> (r: PageData)
    ensures
        page_view(&r) == (
            page_template(Handler::Translate(Translate {})),
            seq![
                (KEY_TRANSLATE_PATH@, answer_url@),
                (KEY_LIST_PATH@, index_url@),
                (KEY_MESSAGE@, bracketed(message@)),
            ],
        ),
{
    let mut entries: Vec<(String, String)> = Vec::new();
    entries.push(entry(KEY_TRANSLATE_PATH, String::from_str(answer_url)));
    entries.push(entry(KEY_LIST_PATH, String::from_str(index_url)));
    entries.push(entry(KEY_MESSAGE, bracket(message)));
    let r = PageData { template: String::from_str(Translate::new().template()), entries };
    assert(page_view(&r).1 =~= seq![
        (KEY_TRANSLATE_PATH@, answer_url@),
        (KEY_LIST_PATH@, index_url@),
        (KEY_MESSAGE@, bracketed(message@)),
    ]);
    r
}
} // verus!
