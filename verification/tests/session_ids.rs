use eng_dict::session::authorized;
use eng_dict::session::{
    generate_session_id, offered_session_ids, session_candidates, session_cookie, SESSION_ID_LEN,
};

#[test]
fn generated_ids_are_sixteen_letters_and_digits() {
    for _ in 0..50 {
        let id = generate_session_id();
        assert_eq!(id.chars().count(), SESSION_ID_LEN);
        assert!(id.chars().all(|c| c.is_ascii_alphanumeric()));
    }
}

#[test]
fn generated_ids_differ() {
    let a = generate_session_id();
    let b = generate_session_id();
    assert_ne!(a, b);
}

#[test]
fn cookie_names_the_session() {
    assert_eq!(session_cookie("abc123"), "xauth=abc123");
}

#[test]
fn candidates_split_and_strip() {
    assert_eq!(session_candidates("xauth=abc;foo,xauth=d"), vec!["abc", "foo", "d"]);
    assert_eq!(session_candidates("a=b; xauth=c"), vec!["a=b", " c"]);
    assert_eq!(session_candidates(""), vec![""]);
}

#[test]
fn login_cookie_round_trip() {
    let id = generate_session_id();
    let cookie = session_cookie(&id);
    assert_eq!(session_candidates(&cookie), vec![id]);
}

#[test]
fn offered_ids_come_from_the_last_cookie() {
    let cookies = vec!["xauth=first".to_string(), "xauth=second".to_string()];
    assert_eq!(offered_session_ids(&cookies), vec!["second"]);
    assert!(offered_session_ids(&Vec::new()).is_empty());
}

#[test]
fn any_live_session_lets_in() {
    assert!(authorized(&vec![false, true]));
    assert!(authorized(&vec![true]));
    assert!(!authorized(&vec![false, false]));
    assert!(!authorized(&Vec::new()));
}
