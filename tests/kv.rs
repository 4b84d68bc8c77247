use flocking::kv::into_kv_tpl;

fn pair(k: &str, v: &str) -> Option<(String, String)> {
    Some((String::from(k), String::from(v)))
}

#[test]
fn test_single_quoted() {
    let s = String::from("foo='bar'");
    assert_eq!(Some((String::from("foo"), String::from("bar"))), into_kv_tpl(s));
}

#[test]
fn test_double_quoted() {
    let s = String::from("foo=\"bar\"");
    assert_eq!(Some((String::from("foo"), String::from("bar"))), into_kv_tpl(s));
}

#[test]
fn test_double_and_single_quoted() {
    let s = String::from("foo=\"bar\'");
    assert!(into_kv_tpl(s).is_none());
}

#[test]
fn test_single_and_double_quoted() {
    let s = String::from("foo=\'bar\"");
    assert!(into_kv_tpl(s).is_none());
}

#[test]
fn test_not_quoted() {
    let s = String::from("foo=bar");
    assert_eq!(Some((String::from("foo"), String::from("bar"))), into_kv_tpl(s));
}

#[test]
fn kv_key_takes_the_last_equals() {
    assert_eq!(into_kv_tpl(String::from("a=b=cd")), pair("a=b", "cd"));
    assert_eq!(into_kv_tpl(String::from("a=bc=d")), pair("a", "bc=d"));
}

#[test]
fn kv_short_or_missing_value() {
    assert_eq!(into_kv_tpl(String::from("foo=b")), None);
    assert_eq!(into_kv_tpl(String::from("foo=")), None);
    assert_eq!(into_kv_tpl(String::from("foo")), None);
    assert_eq!(into_kv_tpl(String::from("")), None);
    assert_eq!(into_kv_tpl(String::from("=ab")), pair("", "ab"));
    assert_eq!(into_kv_tpl(String::from("k=''")), pair("k", ""));
}

#[test]
fn kv_line_breaks() {
    assert_eq!(into_kv_tpl(String::from("a\nb=cd")), None);
    assert_eq!(into_kv_tpl(String::from("k='a\nb'")), None);
    assert_eq!(into_kv_tpl(String::from("k=\nx")), pair("k", "\nx"));
}
