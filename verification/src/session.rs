//! Session identifiers and the `xauth` cookie that carries them.

use vstd::prelude::*;
use crate::text::{fields, remove_all, remove_all_occurrences, split_fields, string_from_chars};

verus! {

/// Number of characters in a session id.
pub const SESSION_ID_LEN: usize = 16;

/// Seconds a session stays valid after it is opened.
pub const SESSION_LIFETIME_SECS: usize = 1800;

/// An ASCII letter or digit.
pub open spec fn is_alphanumeric(c: char) -> bool {
    ||| ('A' <= c && c <= 'Z')
    ||| ('a' <= c && c <= 'z')
    ||| ('0' <= c && c <= '9')
}

/// A text made of ASCII letters and digits only.
pub open spec fn all_alphanumeric(s: Seq<char>) -> bool {
    forall|i: int| 0 <= i < s.len() ==> is_alphanumeric(#[trigger] s[i])
}

/// What a session id looks like: sixteen ASCII letters and digits.
pub open spec fn is_session_id(s: Seq<char>) -> bool {
    s.len() == SESSION_ID_LEN && all_alphanumeric(s)
}

/// The name part of the session cookie, `xauth=`.
pub open spec fn cookie_prefix() -> Seq<char> {
    seq!['x', 'a', 'u', 't', 'h', '=']
}

/// The cookie that carries session `id`.
pub open spec fn cookie_text(id: Seq<char>) -> Seq<char> {
    cookie_prefix() + id
}

/// The session ids a cookie string offers: each field between `;` and `,`,
/// with every `xauth=` in it deleted.
pub open spec fn candidates_of(cookie: Seq<char>) -> Seq<Seq<char>> {
    fields(cookie).map_values(|f: Seq<char>| remove_all(f, cookie_prefix()))
}

/// `rand::Rng::sample` on `rand::thread_rng()` with the
/// `rand::distributions::Alphanumeric` distribution. Its source picks the
/// character from `A`-`Z`, `a`-`z` and `0`-`9`; which one is chance.
#[verifier::external_body]
fn random_alphanumeric() -> (c: char)
    ensures
        is_alphanumeric(c),
{
    rand::Rng::sample(&mut rand::thread_rng(), rand::distributions::Alphanumeric)
}

/// A fresh random session id of sixteen ASCII letters and digits.
pub fn generate_session_id() -> (id: String)
    ensures
        is_session_id(id@),
{
    let mut v: Vec<char> = Vec::new();
    while v.len() < SESSION_ID_LEN
        invariant
            v.len() <= SESSION_ID_LEN,
            all_alphanumeric(v@),
        decreases SESSION_ID_LEN - v.len(),
    {
        let c = random_alphanumeric();
        v.push(c);
    }
    string_from_chars(v.as_slice())
}

/// The `Set-Cookie` value for session `id`: `xauth=` followed by the id.
pub fn session_cookie(id: &str) -> (r: String)
    ensures
        r@ == cookie_text(id@),
{
    let prefix = "xauth=";
    proof {
        reveal_strlit("xauth=");
    }
    let mut r = String::from_str(prefix);
    r.append(id);
    assert(r@ =~= cookie_text(id@));
    r
}

/// The session ids that a cookie string offers, in order.
pub fn session_candidates(cookie: &str) -> (r: Vec<String>)
    ensures
        r@.map_values(|s: String| s@) == candidates_of(cookie@),
{
    let pieces = split_fields(cookie);
    let pat = "xauth=";
    proof {
        reveal_strlit("xauth=");
        assert(pat@ =~= cookie_prefix());
    }
    let mut r: Vec<String> = Vec::new();
    let mut i: usize = 0;
    while i < pieces.len()
        invariant
            pat@ == cookie_prefix(),
            pieces.deep_view() == fields(cookie@),
            i <= pieces.len(),
            r@.map_values(|s: String| s@) == candidates_of(cookie@).take(i as int),
        decreases pieces.len() - i,
    {
        assert(pieces.len() == fields(cookie@).len());
        let piece = string_from_chars(pieces[i].as_slice());
        assert(pieces[i as int]@ =~= pieces.deep_view()[i as int]);
        let cand = remove_all_occurrences(piece.as_str(), pat);
        assert(piece@ == fields(cookie@)[i as int]);
        assert(cand@ == candidates_of(cookie@)[i as int]);
        let ghost old_r = r@;
        let ghost cv = cand@;
        r.push(cand);
        assert(r@ =~= old_r.push(cand));
        assert(r@.map_values(|s: String| s@) =~= old_r.map_values(|s: String| s@).push(cv));
        assert(candidates_of(cookie@).take(i + 1) =~= candidates_of(cookie@).take(i as int).push(cv));
        i += 1;
    }
    assert(candidates_of(cookie@).take(i as int) =~= candidates_of(cookie@));
    r
}

/// The session ids offered by the cookies of a request: those of the last
/// cookie, or none when the request carries no cookie.
pub open spec fn offered_ids(cookies: Seq<Seq<char>>) -> Seq<Seq<char>> {
    if cookies.len() == 0 {
        Seq::empty()
    } else {
        candidates_of(cookies.last())
    }
}

/// The session ids to look up for a request with these cookies.
pub fn offered_session_ids(cookies: &Vec<String>) -> (r: Vec<String>)
    ensures
        r@.map_values(|s: String| s@) == offered_ids(cookies@.map_values(|s: String| s@)),
{
    if cookies.len() == 0 {
        let r: Vec<String> = Vec::new();
        assert(r@.map_values(|s: String| s@) =~= Seq::<Seq<char>>::empty());
        r
    } else {
        let last = &cookies[cookies.len() - 1];
        session_candidates(last.as_str())
    }
}

/// Whether a request is let in, given, for the ids its cookie offers taken
/// in order, whether each one names a live session: it is when any does.
pub fn authorized(live: &Vec<bool>) -> (r: bool)
    ensures
        r == live@.contains(true),
{
    let mut i: usize = 0;
    while i < live.len()
        invariant
            i <= live.len(),
            forall|k: int| 0 <= k < i ==> !live@[k],
        decreases live.len() - i,
    {
        if live[i] {
            assert(live@[i as int] == true);
            return true;
        }
        i += 1;
    }
    assert(!live@.contains(true)) by {
        if live@.contains(true) {
            let k = choose|k: int| 0 <= k < live@.len() && live@[k] == true;
            assert(!live@[k]);
        }
    }
    false
}

proof fn lemma_no_separator_single_field(s: Seq<char>)
    requires
        forall|i: int| 0 <= i < s.len() ==> s[i] != ';' && s[i] != ',',
    ensures
        fields(s) == seq![s],
    decreases s.len(),
{
    if s.len() > 0 {
        lemma_no_separator_single_field(s.drop_last());
        assert(s.drop_last().push(s.last()) =~= s);
        assert(fields(s) =~= seq![s]);
    } else {
        assert(s =~= Seq::<char>::empty());
    }
}

proof fn lemma_remove_absent(s: Seq<char>, pat: Seq<char>)
    requires
        pat.len() > 0,
        pat.last() == '=',
        forall|i: int| 0 <= i < s.len() ==> s[i] != '=',
    ensures
        remove_all(s, pat) == s,
    decreases s.len(),
{
    if s.len() > 0 {
        if pat.len() <= s.len() && s.take(pat.len() as int) == pat {
            assert(s.take(pat.len() as int)[pat.len() - 1] == s[pat.len() - 1]);
        }
        lemma_remove_absent(s.skip(1), pat);
        assert(seq![s[0]] + s.skip(1) =~= s);
    }
}

/// Law: the cookie that a login sets for a session id made of ASCII letters
/// and digits offers exactly that id, and nothing else, when it comes back.
pub proof fn session_cookie_round_trip(id: Seq<char>)
    requires
        all_alphanumeric(id),
    ensures
        candidates_of(cookie_text(id)) == seq![id],
{
    let c = cookie_text(id);
    assert forall|i: int| 0 <= i < c.len() implies c[i] != ';' && c[i] != ',' by {
        if i >= 6 {
            assert(is_alphanumeric(id[i - 6]));
        }
    }
    lemma_no_separator_single_field(c);
    assert(c.take(6) =~= cookie_prefix());
    assert(c.skip(6) =~= id);
    assert forall|i: int| 0 <= i < id.len() implies id[i] != '=' by {
        assert(is_alphanumeric(id[i]));
    }
    lemma_remove_absent(id, cookie_prefix());
    assert(remove_all(c, cookie_prefix()) == id);
    assert(candidates_of(c) =~= seq![id]);
}


/// Law: a request whose last cookie is the one a login set for an id of
/// ASCII letters and digits offers exactly that id, whatever cookies come
/// before it.
pub proof fn login_cookie_is_offered(earlier: Seq<Seq<char>>, id: Seq<char>)
    requires
        all_alphanumeric(id),
    ensures
        offered_ids(earlier.push(cookie_text(id))) == seq![id],
        offered_ids(seq![cookie_text(id)]) == seq![id],
{
    session_cookie_round_trip(id);
    assert(seq![cookie_text(id)].last() == cookie_text(id));
}

} // verus!
