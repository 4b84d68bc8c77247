use flocking::mappath::{compile, ParserError, PathElement, PathElementType, Token};

#[test]
fn test_simple() {
    let path = "";
    let exp = vec![PathElement {
        pe_name: String::from("").into(),
        pe_type: PathElementType::HashMapKey,
    }];

    assert_eq!(compile(path).unwrap(), exp);
}

#[test]
fn test_simple_path() {
    let path = "a";
    let exp = vec![PathElement {
        pe_name: String::from("a").into(),
        pe_type: PathElementType::HashMapKey,
    }];

    assert_eq!(exp, compile(path).unwrap());
}

#[test]
fn test_simple_path_with_sub() {
    let path = "a.b";
    let exp = vec![
        PathElement {
            pe_name: String::from("a").into(),
            pe_type: PathElementType::HashMapKey,
        },
        PathElement {
            pe_name: String::from("b").into(),
            pe_type: PathElementType::HashMapKey,
        },
    ];

    assert_eq!(exp, compile(path).unwrap());
}

fn key(s: &str) -> PathElement {
    PathElement {
        pe_name: Token::Key(String::from(s)),
        pe_type: PathElementType::HashMapKey,
    }
}

#[test]
fn compile_drops_bracketed_parts() {
    assert_eq!(compile("a.[0].b").unwrap(), vec![key("a"), key("b")]);
    assert_eq!(compile("[3]").unwrap(), vec![]);
}

#[test]
fn compile_keeps_empty_parts() {
    assert_eq!(compile("a..b.").unwrap(), vec![key("a"), key(""), key("b"), key("")]);
    assert_eq!(compile(".").unwrap(), vec![key(""), key("")]);
}

#[test]
fn compile_half_brackets_are_keys() {
    assert_eq!(compile("[a.b]").unwrap(), vec![key("[a"), key("b]")]);
    assert_eq!(compile("[").unwrap(), vec![key("[")]);
    assert_eq!(compile("]").unwrap(), vec![key("]")]);
}

#[test]
fn token_from_bracketed_text_is_failed_index() {
    assert_eq!(Token::from(String::from("[3]")), Token::Index(-1));
    assert_eq!(Token::from(String::from("[]")), Token::Index(-1));
    assert_eq!(Token::from(String::from("[-7]")), Token::Index(-1));
    assert_eq!(Token::from(String::from("3")), Token::Key(String::from("3")));
}

#[test]
fn path_element_from_token() {
    let e: PathElement = Token::Index(4).into();
    assert_eq!(e, PathElement { pe_name: Token::Index(4), pe_type: PathElementType::ArrayIndex });
    let k: PathElement = Token::Key(String::from("x")).into();
    assert_eq!(k, key("x"));
}

#[test]
fn parser_error_text_and_cause() {
    let inner = ParserError::new(None);
    assert!(inner.cause().is_none());
    let outer = ParserError::new(Some(Box::new(inner)));
    assert!(outer.cause().is_some());
    assert_eq!(outer.description(), "ParserError");
    assert_eq!(outer.to_string(), "[ParserError]");
}
