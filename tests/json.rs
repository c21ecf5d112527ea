use week_one::json::{object_text, Person, Status, User};

#[test]
fn user_object() {
    let u = User { name: String::from("Alice"), age: 30 };
    assert_eq!(u.to_json().unwrap(), "{\"name\":\"Alice\",\"age\":30}");
}

#[test]
fn user_name_is_escaped() {
    let u = User { name: String::from("a\"b\\c"), age: 0 };
    assert_eq!(u.to_json().unwrap(), "{\"name\":\"a\\\"b\\\\c\",\"age\":0}");
}

#[test]
fn person_without_email_omits_it() {
    let p = Person { name: String::from("Bob"), email: None, password: String::from("secret") };
    let text = p.to_json().unwrap();
    assert_eq!(text, "{\"full_name\":\"Bob\"}");
    assert!(!text.contains("email"));
    assert!(!text.contains("secret"));
}

#[test]
fn person_with_email_keeps_it() {
    let p = Person {
        name: String::from("Bob"),
        email: Some(String::from("bob@example.org")),
        password: String::from("secret"),
    };
    assert_eq!(p.to_json().unwrap(), "{\"full_name\":\"Bob\",\"email\":\"bob@example.org\"}");
}

#[test]
fn status_is_a_string() {
    assert_eq!(Status::Active.to_json().unwrap(), "\"Active\"");
    assert_eq!(Status::Inactive.to_json().unwrap(), "\"Inactive\"");
    assert_eq!(Status::Pending.to_json().unwrap(), "\"Pending\"");
}

#[test]
fn empty_object() {
    assert_eq!(object_text(&vec![]).unwrap(), "{}");
    assert_eq!(object_text(&vec![("k", String::from("1"))]).unwrap(), "{\"k\":1}");
}

#[test]
fn control_characters_are_escaped() {
    let u = User { name: String::from("\u{1}\u{8}\t\n\u{c}\r\u{1f}\u{7f}é"), age: 5 };
    assert_eq!(
        u.to_json().unwrap(),
        "{\"name\":\"\\u0001\\b\\t\\n\\f\\r\\u001f\u{7f}é\",\"age\":5}"
    );
}
