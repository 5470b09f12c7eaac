use alamo_schedule::Session;
use alamo_schedule::sort_sessions;
use alamo_schedule::str_lex_le;

fn session(session_id: &str, when: &str) -> Session {
    Session {
        cinema_id: "c1".to_string(),
        session_id: session_id.to_string(),
        presentation_slug: "p1".to_string(),
        legacy_slug: None,
        show_time_clt: when.to_string(),
        format_slug: None,
    }
}

#[test]
fn lexicographic_comparison_orders_strings() {
    assert!(str_lex_le("2099-01-05T19:30:00", "2099-01-05T19:30:00"));
    assert!(str_lex_le("2099-01-05T19:30:00", "2099-01-06T00:00:00"));
    assert!(!str_lex_le("2099-01-06T00:00:00", "2099-01-05T19:30:00"));
    assert!(str_lex_le("", "a"));
    assert!(str_lex_le("ab", "b"));
    assert!(!str_lex_le("b", "ab"));
}

#[test]
fn sorts_ascending_by_raw_show_time_text() {
    let input = vec![
        session("s1", "2099-01-06T10:00:00"),
        session("s2", "2099-01-05T19:30:00"),
        session("s3", "2099-01-05T09:00:00"),
    ];
    let sorted = sort_sessions(input);
    let times: Vec<&str> = sorted.iter().map(|s| s.show_time_clt.as_str()).collect();
    assert_eq!(
        times,
        vec!["2099-01-05T09:00:00", "2099-01-05T19:30:00", "2099-01-06T10:00:00"],
    );
}

#[test]
fn equal_show_times_keep_their_input_order() {
    let input = vec![
        session("first", "2099-01-05T19:30:00"),
        session("second", "2099-01-04T19:30:00"),
        session("third", "2099-01-05T19:30:00"),
        session("fourth", "2099-01-05T19:30:00"),
    ];
    let sorted = sort_sessions(input);
    let ids: Vec<&str> = sorted.iter().map(|s| s.session_id.as_str()).collect();
    assert_eq!(ids, vec!["second", "first", "third", "fourth"]);
}

#[test]
fn sorting_an_empty_list_gives_an_empty_list() {
    assert!(sort_sessions(Vec::new()).is_empty());
}
