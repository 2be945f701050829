use async_graphql_actix_web::text::{
    chars_of, contains_ignore_ascii_case, eq_ignore_ascii_case, find, lower_chars, same_chars,
    same_text, to_lower,
};

#[test]
fn to_lower_changes_ascii_capitals_only() {
    assert_eq!(to_lower('A'), 'a');
    assert_eq!(to_lower('Z'), 'z');
    assert_eq!(to_lower('M'), 'm');
    assert_eq!(to_lower('a'), 'a');
    assert_eq!(to_lower('@'), '@');
    assert_eq!(to_lower('['), '[');
    assert_eq!(to_lower('0'), '0');
    assert_eq!(to_lower('É'), 'É');
    assert_eq!(to_lower('Σ'), 'Σ');
}

#[test]
fn chars_of_keeps_order_and_unicode() {
    assert_eq!(chars_of(""), Vec::<char>::new());
    assert_eq!(chars_of("aé日"), vec!['a', 'é', '日']);
}

#[test]
fn lower_chars_matches_std() {
    for text in ["", "WebSocket", "ÀBC-def", "MULTIPART/FORM-DATA", "x"].iter() {
        let expected: Vec<char> = text.to_ascii_lowercase().chars().collect();
        assert_eq!(lower_chars(text), expected);
    }
}

#[test]
fn find_locates_a_run_of_characters() {
    let hay = chars_of("upgrade to websocket now");
    assert!(find(&hay, &chars_of("websocket")));
    assert!(find(&hay, &chars_of("upgrade")));
    assert!(find(&hay, &chars_of("now")));
    assert!(find(&hay, &chars_of("")));
    assert!(!find(&hay, &chars_of("websockets")));
    assert!(!find(&hay, &chars_of("nowx")));
    assert!(!find(&chars_of("web"), &chars_of("websocket")));
    assert!(find(&chars_of(""), &chars_of("")));
    assert!(!find(&chars_of(""), &chars_of("a")));
    assert!(find(&chars_of("aab"), &chars_of("ab")));
}

#[test]
fn contains_ignore_ascii_case_matches_std() {
    let hays = ["websocket", "WebSocket", "xWEBSOCKETx", "web socket", "", "wwebsocke", "websockeT"];
    for hay in hays.iter() {
        assert_eq!(
            contains_ignore_ascii_case(hay, "websocket"),
            hay.to_ascii_lowercase().contains("websocket")
        );
    }
}

#[test]
fn contains_ignore_ascii_case_does_not_lower_the_needle() {
    assert!(!contains_ignore_ascii_case("websocket", "WebSocket"));
    assert!(contains_ignore_ascii_case("WEBSOCKET", "websocket"));
}

#[test]
fn eq_ignore_ascii_case_matches_std() {
    let pairs = [
        ("application/json", "APPLICATION/JSON"),
        ("application/json", "application/json"),
        ("application/json", "application/jsonx"),
        ("", ""),
        ("a", ""),
        ("straße", "STRASSE"),
        ("É", "é"),
    ];
    for (a, b) in pairs.iter() {
        assert_eq!(eq_ignore_ascii_case(a, b), a.eq_ignore_ascii_case(b));
    }
}

#[test]
fn same_text_is_exact() {
    assert!(same_text("map", "map"));
    assert!(!same_text("map", "Map"));
    assert!(!same_text("map", "maps"));
    assert!(same_text("", ""));
    assert!(same_chars(&vec!['a', 'b'], &vec!['a', 'b']));
    assert!(!same_chars(&vec!['a', 'b'], &vec!['a', 'c']));
    assert!(!same_chars(&vec!['a'], &vec![]));
}
