//! The detail page of one word.

use vstd::prelude::*;
use super::{entry, page_path, page_template, page_url, page_view, Handler, PageData, PageHandler, KEY_LIST_PATH, KEY_MESSAGE, KEY_TRANSLATE_PATH};
use crate::text::{replace_char, swap_char, swap_char_changes_only_from};

verus! {

/// The page that shows everything stored about one word.
#[derive(Clone, Copy, PartialEq, Eq, Debug)]
pub struct Detail {}

impl Detail {
    pub fn new() -> (r: Detail)
        ensures
            r == (Detail {}),
    {
        Detail {}
    }
}

impl PageHandler for Detail {
    fn is_get(&self) -> (r: bool)
        ensures
            r,
    {
        true
    }

    fn is_post(&self) -> (r: bool)
        ensures
            !r,
    {
        false
    }

    fn path(&self) -> (r: &str)
        ensures
            r@ == page_path(Handler::Detail(*self)),
    {
        proof {
            reveal_strlit("detail");
        }
        let r = "detail";
        assert(r@ =~= page_path(Handler::Detail(*self)));
        r
    }

    fn template(&self) -> (r: &str)
        ensures
            r@ == page_template(Handler::Detail(*self)),
    {
        proof {
            reveal_strlit("detail");
        }
        let r = "detail";
        assert(r@ =~= page_template(Handler::Detail(*self)));
        r
    }

    fn bind_url(&self) -> (r: &str)
        ensures
            r@ == page_url(Handler::Detail(*self)),
    {
        proof {
            reveal_strlit("/detail");
        }
        let r = "/detail";
        assert(r@ =~= page_url(Handler::Detail(*self)));
        r
    }
}


/// The stored record of a word, as JSON text, made fit for a single-quoted
/// template value: every `"` becomes `'`.
pub fn detail_message(json: &str) -> (r: String)
    ensures
        r@ == swap_char(json@, '"', '\''),
{
    replace_char(json, '"', '\'')
}

/// Law: the detail message has the length of the stored record, no double
/// quote, a single quote where the record has a double quote, and every
/// other character of the record unchanged (single quotes included).
pub proof fn detail_message_changes_only_double_quotes(json: Seq<char>)
    ensures
        swap_char(json, '"', '\'').len() == json.len(),
        forall|i: int|
            0 <= i < json.len() ==> (#[trigger] swap_char(json, '"', '\'')[i] == if json[i] == '"' {
                '\''
            } else {
                json[i]
            }),
        forall|i: int| 0 <= i < json.len() ==> #[trigger] swap_char(json, '"', '\'')[i] != '"',
{
    swap_char_changes_only_from(json, '"', '\'');
}

/// The detail page: where to post translations, the word list URL, and the
/// stored record of the word with its double quotes turned into single ones.
pub fn detail_page(answer_url: &str, index_url: &str, json: &str) -> (r: PageData)
    ensures
        page_view(&r) == (
            page_template(Handler::Detail(Detail {})),
            seq![
                (KEY_TRANSLATE_PATH@, answer_url@),
                (KEY_LIST_PATH@, index_url@),
                (KEY_MESSAGE@, swap_char(json@, '"', '\'')),
            ],
        ),
{
    let mut entries: Vec<(String, String)> = Vec::new();
    entries.push(entry(KEY_TRANSLATE_PATH, String::from_str(answer_url)));
    entries.push(entry(KEY_LIST_PATH, String::from_str(index_url)));
    entries.push(entry(KEY_MESSAGE, detail_message(json)));
    let r = PageData { template: String::from_str(Detail::new().template()), entries };
    assert(page_view(&r).1 =~= seq![
        (KEY_TRANSLATE_PATH@, answer_url@),
        (KEY_LIST_PATH@, index_url@),
        (KEY_MESSAGE@, swap_char(json@, '"', '\'')),
    ]);
    r
}
} // verus!
