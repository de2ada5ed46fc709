use youmu::index::{field_value, find, index_path, index_release, release_in};
use youmu::Version;

#[test]
fn field_value_reads_up_to_the_quote() {
    let line = r#"{"name":"demo","vers":"1.5.0","deps":[]}"#;
    assert_eq!(field_value(line, "\"vers\":\""), Some("1.5.0".to_string()));
    assert_eq!(field_value(line, "\"name\":\""), Some("demo".to_string()));
    assert_eq!(field_value(line, "\"cksum\":\""), None);
    assert_eq!(field_value("\"vers\":\"1.0", "\"vers\":\""), None);
    assert_eq!(field_value("abc", ""), None);
}

#[test]
fn field_value_takes_first_occurrence() {
    assert_eq!(field_value("k=\"a\" k=\"b\"", "k=\""), Some("a".to_string()));
    assert_eq!(field_value("x\"", ""), Some("x".to_string()));
}

#[test]
fn release_in_index_and_lock_lines() {
    assert_eq!(release_in(r#"{"name":"demo","vers":"1.5.0"}"#, "\"vers\":\""), Some(Version::new(1, 5, 0)));
    assert_eq!(release_in(r#"{"name":"demo","vers":"2.0.0-rc.1"}"#, "\"vers\":\""), Version::parse("2.0.0-rc.1"));
    assert_eq!(Version::parse("2.0.0-rc.1").unwrap().pre, "rc.1");
    assert_eq!(release_in("version = \"0.3.7\"", "version = \""), Some(Version::new(0, 3, 7)));
    assert_eq!(release_in("name = \"demo\"", "version = \""), None);
}

#[test]
fn index_paths_by_name_length() {
    assert_eq!(index_path("a"), "1/a");
    assert_eq!(index_path("cc"), "2/cc");
    assert_eq!(index_path("Syn"), "3/s/syn");
    assert_eq!(index_path("Serde"), "se/rd/serde");
    assert_eq!(index_path(""), "");
}

#[test]
fn withdrawn_index_lines_offer_nothing() {
    assert_eq!(index_release(r#"{"name":"demo","vers":"1.2.0","yanked":false}"#), Some(Version::new(1, 2, 0)));
    assert_eq!(index_release(r#"{"name":"demo","vers":"1.3.0","yanked":true}"#), None);
    assert_eq!(index_release(r#"{"name":"demo"}"#), None);
    assert_eq!(find("abcabc", "ca"), Some(2));
    assert_eq!(find("abc", "x"), None);
}
