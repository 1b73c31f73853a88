use eng_dict::page_handler::lookup::{
    accepts_event, encode_word, start, step, translate_url, Lookup, LookupAction, LookupEvent,
    LookupOutcome, ReplySummary,
};

fn run(word: &str, events: Vec<LookupEvent>) -> Vec<LookupAction> {
    let (mut state, first) = start(word);
    let mut actions = vec![first];
    for e in events {
        assert!(accepts_event(&state, &e));
        let (s, a) = step(state, e);
        state = s;
        actions.push(a);
    }
    actions
}

const URL_APPLE: &str =
    "https://glosbe.com/gapi/translate?from=en&dest=ja&format=json&phrase=apple&pretty=false";

#[test]
fn word_is_trimmed_not_encoded() {
    assert_eq!(encode_word("  apple \n"), "apple");
    assert_eq!(encode_word("ice cream"), "ice cream");
    assert_eq!(translate_url(" apple "), URL_APPLE);
}

#[test]
fn start_counts_the_word() {
    let (s, a) = start(" apple");
    assert_eq!(s, Lookup::CheckingCache { word: " apple".to_string() });
    assert_eq!(a, LookupAction::CountRecords(" apple".to_string()));
}

#[test]
fn cache_hit() {
    let acts = run("apple", vec![LookupEvent::Counted(Ok(2)), LookupEvent::Loaded(true)]);
    assert_eq!(
        acts,
        vec![
            LookupAction::CountRecords("apple".to_string()),
            LookupAction::LoadRecord("apple".to_string()),
            LookupAction::Finish(LookupOutcome::FormattedRecord),
        ]
    );
}

#[test]
fn unreadable_record_falls_back_to_the_web() {
    let acts = run(" apple ", vec![LookupEvent::Counted(Ok(1)), LookupEvent::Loaded(false)]);
    assert_eq!(acts[2], LookupAction::Fetch(URL_APPLE.to_string()));
}

#[test]
fn new_phrase_is_stored() {
    let acts = run(
        "apple",
        vec![
            LookupEvent::Counted(Ok(0)),
            LookupEvent::Responded(Ok(())),
            LookupEvent::BodyRead(Ok(())),
            LookupEvent::Parsed(Ok(ReplySummary { phrase: Some("apple".to_string()), translations: 3 })),
            LookupEvent::Counted(Ok(0)),
            LookupEvent::Saved(Ok(())),
        ],
    );
    assert_eq!(
        acts,
        vec![
            LookupAction::CountRecords("apple".to_string()),
            LookupAction::Fetch(URL_APPLE.to_string()),
            LookupAction::ReadBody,
            LookupAction::ParseBody,
            LookupAction::CountRecords("apple".to_string()),
            LookupAction::StoreReply,
            LookupAction::Finish(LookupOutcome::FormattedReply),
        ]
    );
}

#[test]
fn known_phrase_is_not_stored_again() {
    let acts = run(
        "apple",
        vec![
            LookupEvent::Counted(Err("down".to_string())),
            LookupEvent::Responded(Ok(())),
            LookupEvent::BodyRead(Ok(())),
            LookupEvent::Parsed(Ok(ReplySummary { phrase: Some("apple".to_string()), translations: 1 })),
            LookupEvent::Counted(Ok(4)),
        ],
    );
    assert_eq!(acts.last(), Some(&LookupAction::Finish(LookupOutcome::FormattedReply)));
    assert!(!acts.contains(&LookupAction::StoreReply));
}

#[test]
fn reply_without_translations_is_not_stored() {
    let acts = run(
        "zzz",
        vec![
            LookupEvent::Counted(Ok(0)),
            LookupEvent::Responded(Ok(())),
            LookupEvent::BodyRead(Ok(())),
            LookupEvent::Parsed(Ok(ReplySummary { phrase: Some("zzz".to_string()), translations: 0 })),
        ],
    );
    assert_eq!(acts.last(), Some(&LookupAction::Finish(LookupOutcome::FormattedReply)));
    let acts = run(
        "zzz",
        vec![
            LookupEvent::Counted(Ok(0)),
            LookupEvent::Responded(Ok(())),
            LookupEvent::BodyRead(Ok(())),
            LookupEvent::Parsed(Ok(ReplySummary { phrase: None, translations: 5 })),
        ],
    );
    assert_eq!(acts.last(), Some(&LookupAction::Finish(LookupOutcome::FormattedReply)));
}

#[test]
fn error_messages() {
    let msg = |events: Vec<LookupEvent>| match run("w", events).pop() {
        Some(LookupAction::Finish(LookupOutcome::Message(m))) => m,
        other => panic!("unexpected {:?}", other),
    };
    assert_eq!(
        msg(vec![LookupEvent::Counted(Ok(0)), LookupEvent::Responded(Err("timeout".to_string()))]),
        "'get error timeout'"
    );
    assert_eq!(
        msg(vec![
            LookupEvent::Counted(Ok(0)),
            LookupEvent::Responded(Ok(())),
            LookupEvent::BodyRead(Err("eof".to_string())),
        ]),
        "'get error(to text) eof'"
    );
    assert_eq!(
        msg(vec![
            LookupEvent::Counted(Ok(0)),
            LookupEvent::Responded(Ok(())),
            LookupEvent::BodyRead(Ok(())),
            LookupEvent::Parsed(Err("bad json".to_string())),
        ]),
        "'serialize error bad json'"
    );
    let ok_reply = || LookupEvent::Parsed(Ok(ReplySummary { phrase: Some("w".to_string()), translations: 1 }));
    assert_eq!(
        msg(vec![
            LookupEvent::Counted(Ok(0)),
            LookupEvent::Responded(Ok(())),
            LookupEvent::BodyRead(Ok(())),
            ok_reply(),
            LookupEvent::Counted(Err("count failed".to_string())),
        ]),
        "count failed"
    );
    assert_eq!(
        msg(vec![
            LookupEvent::Counted(Ok(0)),
            LookupEvent::Responded(Ok(())),
            LookupEvent::BodyRead(Ok(())),
            ok_reply(),
            LookupEvent::Counted(Ok(0)),
            LookupEvent::Saved(Err("write failed".to_string())),
        ]),
        "write failed"
    );
}

#[test]
fn done_accepts_nothing() {
    let (s, _) = step(Lookup::LoadingCache { word: "a".to_string() }, LookupEvent::Loaded(true));
    assert_eq!(s, Lookup::Done);
    assert!(!accepts_event(&s, &LookupEvent::Loaded(true)));
    assert!(!accepts_event(&s, &LookupEvent::Counted(Ok(1))));
    assert!(!accepts_event(&Lookup::Requesting, &LookupEvent::Loaded(true)));
}

#[test]
fn each_state_waits_for_its_action() {
    let (s, a) = start("w");
    assert_eq!(a, LookupAction::CountRecords("w".to_string()));
    assert!(accepts_event(&s, &LookupEvent::Counted(Ok(0))));
    assert!(!accepts_event(&s, &LookupEvent::Loaded(true)));
    let (s, a) = step(s, LookupEvent::Counted(Ok(0)));
    assert!(matches!(a, LookupAction::Fetch(_)));
    assert!(accepts_event(&s, &LookupEvent::Responded(Ok(()))));
    assert!(!accepts_event(&s, &LookupEvent::Counted(Ok(0))));
    let (s, a) = step(s, LookupEvent::Responded(Ok(())));
    assert_eq!(a, LookupAction::ReadBody);
    assert!(accepts_event(&s, &LookupEvent::BodyRead(Ok(()))));
}
