use sqli_practice::escape::json_escape;
use sqli_practice::model::CreateUser;
use sqli_practice::model::create_user;
use sqli_practice::routes::create_user_response;
use sqli_practice::routes::u64_to_string;
use sqli_practice::routes::user_json;

#[test]
fn create_user_returns_201_and_echoes_alice() {
    let r = create_user_response(CreateUser { username: "alice".to_string() });
    assert_eq!(r.status, 201);
    assert_eq!(r.content_type, "application/json");
    assert_eq!(r.body, "{\"id\":1337,\"username\":\"alice\"}");
}

#[test]
fn created_users_always_get_the_fixed_id() {
    let u = create_user(CreateUser { username: "bob".to_string() });
    assert_eq!(u.id, 1337);
    assert_eq!(u.username, "bob");
}

#[test]
fn user_json_escapes_quotes_and_backslashes() {
    let u = create_user(CreateUser { username: "a\"b\\c".to_string() });
    assert_eq!(user_json(&u), "{\"id\":1337,\"username\":\"a\\\"b\\\\c\"}");
}

#[test]
fn json_escape_handles_control_characters() {
    assert_eq!(json_escape("plain"), "plain");
    assert_eq!(json_escape("a\nb"), "a\\nb");
    assert_eq!(json_escape("a\tb"), "a\\tb");
    assert_eq!(json_escape("a\rb"), "a\\rb");
    assert_eq!(json_escape("a\u{8}b"), "a\\bb");
    assert_eq!(json_escape("a\u{c}b"), "a\\fb");
    assert_eq!(json_escape("a\u{1}b"), "a\\u0001b");
    assert_eq!(json_escape("a\u{1f}b"), "a\\u001fb");
}

#[test]
fn u64_formats_in_decimal() {
    assert_eq!(u64_to_string(0), "0");
    assert_eq!(u64_to_string(7), "7");
    assert_eq!(u64_to_string(1337), "1337");
    assert_eq!(u64_to_string(18446744073709551615), "18446744073709551615");
}
