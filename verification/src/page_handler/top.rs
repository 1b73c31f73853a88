//! The word list page.

use vstd::prelude::*;
use super::{page_path, page_template, page_url, Handler, PageHandler};

verus! {

/// The page that lists the translated words.
#[derive(Clone, Copy, PartialEq, Eq, Debug)]
pub struct Top {}

impl Top {
    pub fn new() -> (r: Top)
        ensures
            r == (Top {}),
    {
        Top {}
    }
}

impl PageHandler for Top {
    fn is_get(&self) -> (r: bool)
        ensures
            r,
    {
        true
    }

    fn is_post(&self) -> (r: bool)
        ensures
            !r,
    {
        false
    }

    fn path(&self) -> (r: &str)
        ensures
            r@ == page_path(Handler::Top(*self)),
    {
        proof {
            reveal_strlit("");
        }
        let r = "";
        assert(r@ =~= page_path(Handler::Top(*self)));
        r
    }

    fn template(&self) -> (r: &str)
        ensures
            r@ == page_template(Handler::Top(*self)),
    {
        proof {
            reveal_strlit("index");
        }
        let r = "index";
        assert(r@ =~= page_template(Handler::Top(*self)));
        r
    }

    fn bind_url(&self) -> (r: &str)
        ensures
            r@ == page_url(Handler::Top(*self)),
    {
        proof {
            reveal_strlit("/");
        }
        let r = "/";
        assert(r@ =~= page_url(Handler::Top(*self)));
        r
    }
}

} // verus!
