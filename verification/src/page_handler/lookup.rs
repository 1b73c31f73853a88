//! Looking up the translation of a word: the local store is asked first; on
//! a miss the web dictionary is queried, its reply parsed, and a reply with
//! translations for a phrase the store does not hold yet is stored.
//!
//! The steps that reach the store or the network are carried out by the
//! caller. [`start`] and [`step`] decide, from the state of the lookup and
//! the outcome of the last step, what to do next.

use vstd::prelude::*;
use crate::text::{is_white_space, join3, trim, trim_keeps_the_middle, trimmed};

verus! {

/// The web dictionary query up to the word.
pub const LOOKUP_URL_HEAD: &'static str =
    "https://glosbe.com/gapi/translate?from=en&dest=ja&format=json&phrase=";

/// The web dictionary query after the word.
pub const LOOKUP_URL_TAIL: &'static str = "&pretty=false";

/// Start of the message when the web dictionary cannot be reached.
pub const FETCH_ERROR_HEAD: &'static str = "'get error ";

/// Start of the message when the reply body cannot be read.
pub const READ_ERROR_HEAD: &'static str = "'get error(to text) ";

/// Start of the message when the reply is not the expected JSON.
pub const PARSE_ERROR_HEAD: &'static str = "'serialize error ";

/// The most translations an answer is formatted with.
pub const ANSWER_ITEM_LIMIT: usize = 999;

/// End of the quoted error messages.
pub const ERROR_TAIL: &'static str = "'";

#[verifier::external_type_specification]
#[verifier::external_body]
pub struct ExUrlEncodeError(serde_urlencoded::ser::Error);

/// `serde_urlencoded::to_string` applied to a `String`. In its source a
/// `String` serializes through `serialize_str`, which the top-level
/// serializer refuses with `Error::top_level()`, so the result is an error
/// for every word.
#[verifier::external_body]
fn urlencode(word: String) -> (r: Result<String, serde_urlencoded::ser::Error>)
    ensures
        r is Err,
{
    serde_urlencoded::to_string(word)
}

/// The word as it is put into the web query: the form-encoded word when
/// encoding succeeds, the word itself otherwise, with surrounding white
/// space removed.
pub fn encode_word(word: &str) -> (r: String)
    ensures
        r@ == trimmed(word@),
{
    match urlencode(String::from_str(word)) {
        Ok(encoded) => trim(encoded.as_str()),
        Err(_) => trim(word),
    }
}

/// The web dictionary query for `word`.
pub open spec fn lookup_url(word: Seq<char>) -> Seq<char> {
    LOOKUP_URL_HEAD@ + trimmed(word) + LOOKUP_URL_TAIL@
}

/// Builds the web dictionary query for `word`.
pub fn translate_url(word: &str) -> (r: String)
    ensures
        r@ == lookup_url(word@),
{
    let enc = encode_word(word);
    join3(LOOKUP_URL_HEAD, enc.as_str(), LOOKUP_URL_TAIL)
}

/// An error message: `head`, the error text, and a closing quote.
pub open spec fn quoted_error(head: Seq<char>, e: Seq<char>) -> Seq<char> {
    head + e + ERROR_TAIL@
}

/// Where a lookup stands.
#[derive(Debug, PartialEq, Eq)]
pub enum Lookup {
    /// Waiting for the store to count its records of `word`.
    CheckingCache { word: String },
    /// Waiting for the stored record of `word`.
    LoadingCache { word: String },
    /// Waiting for the web dictionary to answer.
    Requesting,
    /// Waiting for the body of the answer.
    Reading,
    /// Waiting for the body to be parsed.
    Parsing,
    /// Waiting for the store to count its records of the phrase the reply names.
    CheckingPhrase,
    /// Waiting for the reply to be stored.
    Saving,
    /// The lookup has answered.
    Done,
}

/// What the reply of the web dictionary says that the lookup decides on.
#[derive(Debug, PartialEq, Eq)]
pub struct ReplySummary {
    /// The phrase the reply is about, if it names one.
    pub phrase: Option<String>,
    /// How many translations the reply holds.
    pub translations: usize,
}

/// The outcome of the last step the caller carried out.
#[derive(Debug, PartialEq, Eq)]
pub enum LookupEvent {
    /// The number of stored records, or the store's error text.
    Counted(Result<i64, String>),
    /// Whether the stored record could be read.
    Loaded(bool),
    /// Whether the web dictionary answered, or the error text.
    Responded(Result<(), String>),
    /// Whether the body of the answer could be read, or the error text.
    BodyRead(Result<(), String>),
    /// The parsed reply, or the parser's error text.
    Parsed(Result<ReplySummary, String>),
    /// Whether the reply could be stored, or the error text.
    Saved(Result<(), String>),
}

/// How a lookup answers.
#[derive(Debug, PartialEq, Eq)]
pub enum LookupOutcome {
    /// With the translations of the stored record it read, formatted for
    /// the page.
    FormattedRecord,
    /// With the translations of the web reply it parsed, formatted for the
    /// page.
    FormattedReply,
    /// With this message.
    Message(String),
}

/// What the caller is to do next.
#[derive(Debug, PartialEq, Eq)]
pub enum LookupAction {
    /// Count the stored records of this word or phrase.
    CountRecords(String),
    /// Read the stored record of this word.
    LoadRecord(String),
    /// Query the web dictionary at this URL.
    Fetch(String),
    /// Read the body of the answer.
    ReadBody,
    /// Parse the body as a dictionary reply.
    ParseBody,
    /// Store the parsed reply.
    StoreReply,
    /// Answer the lookup.
    Finish(LookupOutcome),
}

/// The view of a [`Lookup`].
pub enum LookupView {
    CheckingCache(Seq<char>),
    LoadingCache(Seq<char>),
    Requesting,
    Reading,
    Parsing,
    CheckingPhrase,
    Saving,
    Done,
}

/// The view of a [`LookupEvent`]; a parsed reply is seen as its phrase and
/// its number of translations.
pub enum LookupEventView {
    Counted(Result<i64, Seq<char>>),
    Loaded(bool),
    Responded(Result<(), Seq<char>>),
    BodyRead(Result<(), Seq<char>>),
    Parsed(Result<(Option<Seq<char>>, nat), Seq<char>>),
    Saved(Result<(), Seq<char>>),
}

/// The view of a [`LookupOutcome`].
pub enum OutcomeView {
    FormattedRecord,
    FormattedReply,
    Message(Seq<char>),
}

/// The view of a [`LookupAction`].
pub enum LookupActionView {
    CountRecords(Seq<char>),
    LoadRecord(Seq<char>),
    Fetch(Seq<char>),
    ReadBody,
    ParseBody,
    StoreReply,
    Finish(OutcomeView),
}

pub open spec fn error_view<T, U>(r: Result<T, String>, ok: U) -> Result<U, Seq<char>> {
    match r {
        Ok(_) => Ok(ok),
        Err(e) => Err(e@),
    }
}

impl View for Lookup {
    type V = LookupView;

    open spec fn view(&self) -> LookupView {
        match self {
            Lookup::CheckingCache { word } => LookupView::CheckingCache(word@),
            Lookup::LoadingCache { word } => LookupView::LoadingCache(word@),
            Lookup::Requesting => LookupView::Requesting,
            Lookup::Reading => LookupView::Reading,
            Lookup::Parsing => LookupView::Parsing,
            Lookup::CheckingPhrase => LookupView::CheckingPhrase,
            Lookup::Saving => LookupView::Saving,
            Lookup::Done => LookupView::Done,
        }
    }
}

impl View for LookupEvent {
    type V = LookupEventView;

    open spec fn view(&self) -> LookupEventView {
        match self {
            LookupEvent::Counted(r) => LookupEventView::Counted(
                match r {
                    Ok(n) => Ok(*n),
                    Err(e) => Err(e@),
                },
            ),
            LookupEvent::Loaded(b) => LookupEventView::Loaded(*b),
            LookupEvent::Responded(r) => LookupEventView::Responded(error_view(*r, ())),
            LookupEvent::BodyRead(r) => LookupEventView::BodyRead(error_view(*r, ())),
            LookupEvent::Parsed(r) => LookupEventView::Parsed(
                match r {
                    Ok(s) => Ok(
                        (
                            match s.phrase {
                                Some(p) => Some(p@),
                                None => None,
                            },
                            s.translations as nat,
                        ),
                    ),
                    Err(e) => Err(e@),
                },
            ),
            LookupEvent::Saved(r) => LookupEventView::Saved(error_view(*r, ())),
        }
    }
}

impl View for LookupOutcome {
    type V = OutcomeView;

    open spec fn view(&self) -> OutcomeView {
        match self {
            LookupOutcome::FormattedRecord => OutcomeView::FormattedRecord,
            LookupOutcome::FormattedReply => OutcomeView::FormattedReply,
            LookupOutcome::Message(m) => OutcomeView::Message(m@),
        }
    }
}

impl View for LookupAction {
    type V = LookupActionView;

    open spec fn view(&self) -> LookupActionView {
        match self {
            LookupAction::CountRecords(w) => LookupActionView::CountRecords(w@),
            LookupAction::LoadRecord(w) => LookupActionView::LoadRecord(w@),
            LookupAction::Fetch(u) => LookupActionView::Fetch(u@),
            LookupAction::ReadBody => LookupActionView::ReadBody,
            LookupAction::ParseBody => LookupActionView::ParseBody,
            LookupAction::StoreReply => LookupActionView::StoreReply,
            LookupAction::Finish(o) => LookupActionView::Finish(o@),
        }
    }
}

/// Whether a lookup in state `s` waits for an outcome like `e`.
pub open spec fn accepts(s: LookupView, e: LookupEventView) -> bool {
    match (s, e) {
        (LookupView::CheckingCache(_), LookupEventView::Counted(_)) => true,
        (LookupView::LoadingCache(_), LookupEventView::Loaded(_)) => true,
        (LookupView::Requesting, LookupEventView::Responded(_)) => true,
        (LookupView::Reading, LookupEventView::BodyRead(_)) => true,
        (LookupView::Parsing, LookupEventView::Parsed(_)) => true,
        (LookupView::CheckingPhrase, LookupEventView::Counted(_)) => true,
        (LookupView::Saving, LookupEventView::Saved(_)) => true,
        _ => false,
    }
}

/// Whether a lookup in state `state` waits for an outcome like `event`.
pub fn accepts_event(state: &Lookup, event: &LookupEvent) -> (r: bool)
    ensures
        r == accepts(state@, event@),
{
    match (state, event) {
        (Lookup::CheckingCache { .. }, LookupEvent::Counted(_)) => true,
        (Lookup::LoadingCache { .. }, LookupEvent::Loaded(_)) => true,
        (Lookup::Requesting, LookupEvent::Responded(_)) => true,
        (Lookup::Reading, LookupEvent::BodyRead(_)) => true,
        (Lookup::Parsing, LookupEvent::Parsed(_)) => true,
        (Lookup::CheckingPhrase, LookupEvent::Counted(_)) => true,
        (Lookup::Saving, LookupEvent::Saved(_)) => true,
        _ => false,
    }
}

/// The first step of a lookup of `word`: count the stored records of it.
pub open spec fn start_spec(word: Seq<char>) -> (LookupView, LookupActionView) {
    (LookupView::CheckingCache(word), LookupActionView::CountRecords(word))
}

/// Asking the web dictionary about `word`.
pub open spec fn fetch_spec(word: Seq<char>) -> (LookupView, LookupActionView) {
    (LookupView::Requesting, LookupActionView::Fetch(lookup_url(word)))
}

/// Answering with `o`.
pub open spec fn finish_spec(o: OutcomeView) -> (LookupView, LookupActionView) {
    (LookupView::Done, LookupActionView::Finish(o))
}

/// The next state and action of a lookup in state `s` after outcome `e`
/// (meaningful where `accepts(s, e)`; elsewhere the state stays).
pub open spec fn step_spec(s: LookupView, e: LookupEventView) -> (LookupView, LookupActionView) {
    match (s, e) {
        (LookupView::CheckingCache(w), LookupEventView::Counted(c)) => {
            if c matches Ok(n) && n > 0 {
                (LookupView::LoadingCache(w), LookupActionView::LoadRecord(w))
            } else {
                fetch_spec(w)
            }
        },
        (LookupView::LoadingCache(w), LookupEventView::Loaded(ok)) => {
            if ok {
                finish_spec(OutcomeView::FormattedRecord)
            } else {
                fetch_spec(w)
            }
        },
        (LookupView::Requesting, LookupEventView::Responded(r)) => match r {
            Ok(_) => (LookupView::Reading, LookupActionView::ReadBody),
            Err(m) => finish_spec(OutcomeView::Message(quoted_error(FETCH_ERROR_HEAD@, m))),
        },
        (LookupView::Reading, LookupEventView::BodyRead(r)) => match r {
            Ok(_) => (LookupView::Parsing, LookupActionView::ParseBody),
            Err(m) => finish_spec(OutcomeView::Message(quoted_error(READ_ERROR_HEAD@, m))),
        },
        (LookupView::Parsing, LookupEventView::Parsed(r)) => match r {
            Ok((phrase, n)) => match phrase {
                Some(p) => {
                    if n > 0 {
                        (LookupView::CheckingPhrase, LookupActionView::CountRecords(p))
                    } else {
                        finish_spec(OutcomeView::FormattedReply)
                    }
                },
                None => finish_spec(OutcomeView::FormattedReply),
            },
            Err(m) => finish_spec(OutcomeView::Message(quoted_error(PARSE_ERROR_HEAD@, m))),
        },
        (LookupView::CheckingPhrase, LookupEventView::Counted(c)) => match c {
            Ok(n) => {
                if n == 0 {
                    (LookupView::Saving, LookupActionView::StoreReply)
                } else {
                    finish_spec(OutcomeView::FormattedReply)
                }
            },
            Err(m) => finish_spec(OutcomeView::Message(m)),
        },
        (LookupView::Saving, LookupEventView::Saved(r)) => match r {
            Ok(_) => finish_spec(OutcomeView::FormattedReply),
            Err(m) => finish_spec(OutcomeView::Message(m)),
        },
        _ => (s, LookupActionView::ReadBody),
    }
}

/// Begins the lookup of `word`.
pub fn start(word: &str) -> (r: (Lookup, LookupAction))
    ensures
        (r.0@, r.1@) == start_spec(word@),
        r.0@ == LookupView::CheckingCache(word@),
        r.1@ == LookupActionView::CountRecords(word@),
{
    (Lookup::CheckingCache { word: String::from_str(word) }, LookupAction::CountRecords(String::from_str(word)))
}

fn fetch(word: &str) -> (r: (Lookup, LookupAction))
    ensures
        (r.0@, r.1@) == fetch_spec(word@),
{
    (Lookup::Requesting, LookupAction::Fetch(translate_url(word)))
}

fn finish_with_error(head: &str, e: String) -> (r: (Lookup, LookupAction))
    ensures
        (r.0@, r.1@) == finish_spec(OutcomeView::Message(quoted_error(head@, e@))),
{
    (Lookup::Done, LookupAction::Finish(LookupOutcome::Message(join3(head, e.as_str(), ERROR_TAIL))))
}

fn finish(o: LookupOutcome) -> (r: (Lookup, LookupAction))
    ensures
        (r.0@, r.1@) == finish_spec(o@),
{
    (Lookup::Done, LookupAction::Finish(o))
}

/// Decides what a lookup in state `state` does after outcome `event`.
pub fn step(state: Lookup, event: LookupEvent) -> (r: (Lookup, LookupAction))
    requires
        accepts(state@, event@),
    ensures
        (r.0@, r.1@) == step_spec(state@, event@),
{
    match state {
        Lookup::CheckingCache { word } => match event {
            LookupEvent::Counted(Ok(n)) => {
                if n > 0 {
                    let w2 = word.clone();
                    (Lookup::LoadingCache { word }, LookupAction::LoadRecord(w2))
                } else {
                    fetch(word.as_str())
                }
            },
            _ => fetch(word.as_str()),
        },
        Lookup::LoadingCache { word } => match event {
            LookupEvent::Loaded(true) => finish(LookupOutcome::FormattedRecord),
            _ => fetch(word.as_str()),
        },
        Lookup::Requesting => match event {
            LookupEvent::Responded(Err(e)) => finish_with_error(FETCH_ERROR_HEAD, e),
            _ => (Lookup::Reading, LookupAction::ReadBody),
        },
        Lookup::Reading => match event {
            LookupEvent::BodyRead(Err(e)) => finish_with_error(READ_ERROR_HEAD, e),
            _ => (Lookup::Parsing, LookupAction::ParseBody),
        },
        Lookup::Parsing => match event {
            LookupEvent::Parsed(Ok(reply)) => match reply.phrase {
                Some(p) => {
                    if reply.translations > 0 {
                        (Lookup::CheckingPhrase, LookupAction::CountRecords(p))
                    } else {
                        finish(LookupOutcome::FormattedReply)
                    }
                },
                None => finish(LookupOutcome::FormattedReply),
            },
            LookupEvent::Parsed(Err(e)) => finish_with_error(PARSE_ERROR_HEAD, e),
            _ => (Lookup::Parsing, LookupAction::ReadBody),
        },
        Lookup::CheckingPhrase => match event {
            LookupEvent::Counted(Ok(n)) => {
                if n == 0 {
                    (Lookup::Saving, LookupAction::StoreReply)
                } else {
                    finish(LookupOutcome::FormattedReply)
                }
            },
            LookupEvent::Counted(Err(e)) => finish(LookupOutcome::Message(e)),
            _ => (Lookup::CheckingPhrase, LookupAction::ReadBody),
        },
        Lookup::Saving => match event {
            LookupEvent::Saved(Ok(())) => finish(LookupOutcome::FormattedReply),
            LookupEvent::Saved(Err(e)) => finish(LookupOutcome::Message(e)),
            _ => (Lookup::Saving, LookupAction::ReadBody),
        },
        Lookup::Done => (Lookup::Done, LookupAction::ReadBody),
    }
}


/// The most outcomes a lookup in state `s` can still wait for.
pub open spec fn steps_left(s: LookupView) -> nat {
    match s {
        LookupView::CheckingCache(_) => 7,
        LookupView::LoadingCache(_) => 6,
        LookupView::Requesting => 5,
        LookupView::Reading => 4,
        LookupView::Parsing => 3,
        LookupView::CheckingPhrase => 2,
        LookupView::Saving => 1,
        LookupView::Done => 0,
    }
}

/// Whether a lookup in state `s` accepts the outcomes `events` one after
/// the other.
pub open spec fn accepted_run(s: LookupView, events: Seq<LookupEventView>) -> bool
    decreases events.len(),
{
    events.len() == 0 || (accepts(s, events[0]) && accepted_run(
        step_spec(s, events[0]).0,
        events.drop_first(),
    ))
}

/// The actions a lookup in state `s` takes on the outcomes `events`.
pub open spec fn run_actions(s: LookupView, events: Seq<LookupEventView>) -> Seq<LookupActionView>
    decreases events.len(),
{
    if events.len() == 0 {
        Seq::empty()
    } else {
        seq![step_spec(s, events[0]).1] + run_actions(step_spec(s, events[0]).0, events.drop_first())
    }
}

proof fn lemma_run_actions_len(s: LookupView, events: Seq<LookupEventView>)
    ensures
        run_actions(s, events).len() == events.len(),
    decreases events.len(),
{
    if events.len() > 0 {
        lemma_run_actions_len(step_spec(s, events[0]).0, events.drop_first());
    }
}

/// Whether `e` is the kind of outcome that carrying out action `a` yields.
pub open spec fn answers(a: LookupActionView, e: LookupEventView) -> bool {
    match (a, e) {
        (LookupActionView::CountRecords(_), LookupEventView::Counted(_)) => true,
        (LookupActionView::LoadRecord(_), LookupEventView::Loaded(_)) => true,
        (LookupActionView::Fetch(_), LookupEventView::Responded(_)) => true,
        (LookupActionView::ReadBody, LookupEventView::BodyRead(_)) => true,
        (LookupActionView::ParseBody, LookupEventView::Parsed(_)) => true,
        (LookupActionView::StoreReply, LookupEventView::Saved(_)) => true,
        _ => false,
    }
}

/// Law: after `start`, and after each step on an accepted outcome, the new
/// state accepts exactly the outcomes of the action returned with it; after
/// an answer it accepts nothing.
pub proof fn lookup_waits_for_its_action(word: Seq<char>, s: LookupView, e: LookupEventView, next: LookupEventView)
    ensures
        accepts(start_spec(word).0, next) == answers(start_spec(word).1, next),
        accepts(s, e) ==> accepts(step_spec(s, e).0, next) == answers(step_spec(s, e).1, next),
{
}

/// Law: each outcome a lookup accepts brings it closer to its end, and a
/// step answers the lookup exactly when it ends it.
pub proof fn lookup_step_progress(s: LookupView, e: LookupEventView)
    requires
        accepts(s, e),
    ensures
        steps_left(step_spec(s, e).0) < steps_left(s),
        (step_spec(s, e).0 is Done) == (step_spec(s, e).1 is Finish),
{
}

/// Law: a lookup that has answered waits for nothing more.
pub proof fn lookup_done_waits_for_nothing(e: LookupEventView)
    ensures
        !accepts(LookupView::Done, e),
{
}

/// Law: a lookup answers after at most as many outcomes as `steps_left`
/// allows (seven from its start), and it answers at most once, with its
/// last action.
pub proof fn lookup_answers_once(s: LookupView, events: Seq<LookupEventView>)
    requires
        accepted_run(s, events),
    ensures
        events.len() <= steps_left(s),
        forall|i: int|
            0 <= i < events.len() - 1 ==> !(#[trigger] run_actions(s, events)[i] is Finish),
    decreases events.len(),
{
    if events.len() > 0 {
        let (s1, a1) = step_spec(s, events[0]);
        let rest = events.drop_first();
        lookup_step_progress(s, events[0]);
        lookup_answers_once(s1, rest);
        lemma_run_actions_len(s1, rest);
        if a1 is Finish && rest.len() > 0 {
            lookup_done_waits_for_nothing(rest[0]);
        }
        let acts = run_actions(s, events);
        assert forall|i: int| 0 <= i < events.len() - 1 implies !(#[trigger] acts[i] is Finish) by {
            if i > 0 {
                assert(acts[i] == run_actions(s1, rest)[i - 1]);
            }
        }
    }
}

/// Law: a lookup asks the store about the word exactly as given: it first
/// counts the records of that word, and when there are some it reads the
/// record of that same word.
pub proof fn lookup_asks_the_store_about_the_word(word: Seq<char>, n: i64)
    requires
        n > 0,
    ensures
        start_spec(word).1 == LookupActionView::CountRecords(word),
        start_spec(word).0 == LookupView::CheckingCache(word),
        step_spec(start_spec(word).0, LookupEventView::Counted(Ok(n))).1
            == LookupActionView::LoadRecord(word),
{
}

/// Law: the web query is the fixed head, then one contiguous stretch of
/// the word, unchanged, then the fixed tail; only white space before and
/// after the stretch is left out, and the stretch neither starts nor ends
/// with white space.
pub proof fn lookup_queries_the_word_as_typed(word: Seq<char>)
    ensures
        exists|i: int, j: int|
            {
                &&& 0 <= i <= j <= word.len()
                &&& #[trigger] lookup_url(word) == LOOKUP_URL_HEAD@ + word.subrange(i, j)
                    + LOOKUP_URL_TAIL@
                &&& forall|k: int| 0 <= k < i ==> is_white_space(#[trigger] word[k])
                &&& forall|k: int| j <= k < word.len() ==> is_white_space(#[trigger] word[k])
                &&& i < j ==> !is_white_space(word[i]) && !is_white_space(word[j - 1])
            },
{
    trim_keeps_the_middle(word);
    let (i, j) = choose|i: int, j: int|
        {
            &&& 0 <= i <= j <= word.len()
            &&& #[trigger] word.subrange(i, j) == trimmed(word)
            &&& forall|k: int| 0 <= k < i ==> is_white_space(#[trigger] word[k])
            &&& forall|k: int| j <= k < word.len() ==> is_white_space(#[trigger] word[k])
            &&& i < j ==> !is_white_space(word[i]) && !is_white_space(word[j - 1])
        };
    assert(lookup_url(word) == LOOKUP_URL_HEAD@ + word.subrange(i, j) + LOOKUP_URL_TAIL@);
}

/// Law: a lookup whose word the store holds, and whose stored record can be
/// read, takes exactly two actions after its start: it reads the record, then
/// answers with the formatted record; it never queries the web dictionary.
pub proof fn lookup_cache_hit_skips_the_web(word: Seq<char>, n: i64)
    requires
        n > 0,
    ensures
        ({
            let s0 = start_spec(word).0;
            let events = seq![LookupEventView::Counted(Ok(n)), LookupEventView::Loaded(true)];
            &&& accepted_run(s0, events)
            &&& run_actions(s0, events) == seq![
                LookupActionView::LoadRecord(word),
                LookupActionView::Finish(OutcomeView::FormattedRecord),
            ]
        }),
{
    let s0 = start_spec(word).0;
    let events = seq![LookupEventView::Counted(Ok(n)), LookupEventView::Loaded(true)];
    let s1 = step_spec(s0, events[0]).0;
    assert(events.drop_first() =~= seq![LookupEventView::Loaded(true)]);
    assert(events.drop_first().drop_first() =~= Seq::<LookupEventView>::empty());
    let s2 = step_spec(s1, LookupEventView::Loaded(true)).0;
    assert(accepted_run(s2, events.drop_first().drop_first()));
    assert(run_actions(s2, events.drop_first().drop_first()) =~= Seq::<LookupActionView>::empty());
    assert(accepted_run(s1, events.drop_first()));
    assert(run_actions(s1, events.drop_first()) =~= seq![
        LookupActionView::Finish(OutcomeView::FormattedRecord),
    ]);
    assert(run_actions(s0, events) =~= seq![
        LookupActionView::LoadRecord(word),
        LookupActionView::Finish(OutcomeView::FormattedRecord),
    ]);
}

/// Law: a lookup whose word the store does not hold, or whose store cannot
/// answer or cannot read the record, asks the web dictionary about the word.
pub proof fn lookup_cache_miss_asks_the_web(word: Seq<char>, c: Result<i64, Seq<char>>)
    requires
        !(c matches Ok(n) && n > 0),
    ensures
        step_spec(start_spec(word).0, LookupEventView::Counted(c)) == fetch_spec(word),
        step_spec(LookupView::LoadingCache(word), LookupEventView::Loaded(false)) == fetch_spec(word),
{
}

/// Law: the web dictionary is only asked about the word being looked up,
/// with its surrounding white space removed.
pub proof fn lookup_fetches_the_trimmed_word(s: LookupView, e: LookupEventView)
    requires
        accepts(s, e),
        step_spec(s, e).1 is Fetch,
    ensures
        match s {
            LookupView::CheckingCache(w) => step_spec(s, e).1 == LookupActionView::Fetch(lookup_url(w)),
            LookupView::LoadingCache(w) => step_spec(s, e).1 == LookupActionView::Fetch(lookup_url(w)),
            _ => false,
        },
{
}

/// Law: a reply is stored only after it named a phrase with at least one
/// translation, the store was asked about that phrase, and the store held
/// no record of it.
pub proof fn lookup_stores_only_new_phrases(s: LookupView, e1: LookupEventView, e2: LookupEventView)
    requires
        accepts(s, e1),
        accepts(step_spec(s, e1).0, e2),
        step_spec(step_spec(s, e1).0, e2).1 is StoreReply,
    ensures
        s is Parsing,
        e1 matches LookupEventView::Parsed(Ok((Some(p), n))) && n > 0
            && step_spec(s, e1).1 == LookupActionView::CountRecords(p),
        e2 == LookupEventView::Counted(Ok(0)),
{
}

} // verus!
