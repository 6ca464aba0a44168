use book_exercises::caps::{
    find_description, get_cap_descriptions, get_wrapper_width, list_caps, list_caps_as_json,
    list_caps_as_prose, parse_format, wrapper_width_for, CapsFormat, Notification, MAX_WIDTH,
};
use book_exercises::server::{response, route, starts_with, Route};

fn caps(names: &[&str]) -> Vec<String> {
    names.iter().map(|s| s.to_string()).collect()
}

#[test]
fn notification_holds_its_text() {
    let n = Notification { summary: "Message from Alice".to_owned(), body: "Knock knock!".to_owned() };
    assert_eq!(n.summary, "Message from Alice");
    assert_eq!(n.body, "Knock knock!");
}

#[test]
fn descriptions_are_dedented_trimmed_and_on_one_line() {
    let d = get_cap_descriptions();
    assert_eq!(d.len(), 10);
    assert_eq!(d[0].0, "action-icons");
    assert_eq!(
        d[0].1,
        "Supports using icons instead of text for displaying actions. Using icons for actions \
         must be enabled on a per-notification basis using the \"action-icons\" hint."
    );
    assert_eq!(d[3], ("body-hyperlinks".to_string(), "The server supports hyperlinks in the notifications.".to_string()));
    assert_eq!(d[9].0, "sound");
}

#[test]
fn lookup_finds_the_first_entry() {
    let table = vec![
        ("a".to_string(), "first".to_string()),
        ("b".to_string(), "second".to_string()),
        ("a".to_string(), "third".to_string()),
    ];
    assert_eq!(find_description(&table, &"a".to_string()).unwrap(), "first");
    assert_eq!(find_description(&table, &"b".to_string()).unwrap(), "second");
    assert!(find_description(&table, &"c".to_string()).is_none());
}

#[test]
fn json_listing_escapes_and_skips_repeats() {
    let table = vec![
        ("q".to_string(), "say \"hi\"".to_string()),
        ("b".to_string(), "bee".to_string()),
    ];
    let out = list_caps_as_json(&caps(&["q", "zz", "q", "b"]), &table);
    assert_eq!(
        out,
        "{\"q\":\"say \\\"hi\\\"\",\"zz\":\"Unknown capability! No description available.\",\"b\":\"bee\"}"
    );
    assert_eq!(list_caps_as_json(&Vec::new(), &table), "{}");
}

#[test]
fn prose_listing_wraps_and_indents() {
    let table = vec![("body".to_string(), "one two three four".to_string())];
    let out = list_caps_as_prose(&caps(&["body", "other"]), &table, 16);
    assert_eq!(out.len(), 5);
    assert_eq!(out[0], "The current\nnotifications\nserver supports\nthe following\ncapabilities:\n");
    assert_eq!(out[1], "body");
    assert_eq!(out[2], "    one two\n    three four");
    assert_eq!(out[3], "other");
    assert_eq!(out[4], "    No\n    description.");
    let wide = list_caps_as_prose(&Vec::new(), &table, 100);
    assert_eq!(wide, vec!["The current notifications server supports the following capabilities:\n".to_string()]);
}

#[test]
fn list_caps_in_each_format() {
    let json = list_caps(CapsFormat::Json, &caps(&["body"]), 80);
    assert_eq!(json.len(), 1);
    assert!(json[0].starts_with("{\"body\":\"Supports body text."));
    let prose = list_caps(CapsFormat::Prose, &caps(&["sound"]), 100);
    assert_eq!(prose.len(), 3);
    assert_eq!(prose[1], "sound");
    assert!(prose[2].starts_with("    The server supports sounds"));
}

#[test]
fn format_names() {
    assert_eq!(parse_format("json"), Some(CapsFormat::Json));
    assert_eq!(parse_format("prose"), Some(CapsFormat::Prose));
    assert_eq!(parse_format("yaml"), None);
}

#[test]
fn wrapper_width_is_capped() {
    assert_eq!(wrapper_width_for(80), 80);
    assert_eq!(wrapper_width_for(100), MAX_WIDTH);
    assert_eq!(wrapper_width_for(300), 100);
    assert!(get_wrapper_width() <= MAX_WIDTH);
}

#[test]
fn routes_by_request_line() {
    assert_eq!(route(b"GET / HTTP/1.1\r\nHost: x\r\n", false), Route::Hello);
    assert_eq!(route(b"GET /sleep HTTP/1.1\r\n", true), Route::SlowHello);
    assert_eq!(route(b"GET /sleep HTTP/1.1\r\n", false), Route::NotFound);
    assert_eq!(route(b"GET / HTTP/1.0\r\n", true), Route::NotFound);
    assert_eq!(route(b"", true), Route::NotFound);
    assert_eq!(Route::Hello.head(), "HTTP/1.1 200 OK\r\n\r\n");
    assert_eq!(Route::SlowHello.body_file(), "assets/hello.html");
    assert_eq!(Route::NotFound.head(), "HTTP/1.1 404 NOT FOUND\r\n\r\n");
    assert_eq!(Route::NotFound.body_file(), "assets/404.html");
}

#[test]
fn prefix_and_response() {
    assert!(starts_with(b"abc", "ab"));
    assert!(starts_with(b"abc", ""));
    assert!(!starts_with(b"ab", "abc"));
    assert_eq!(response("H\r\n\r\n", "body"), "H\r\n\r\nbody");
}
