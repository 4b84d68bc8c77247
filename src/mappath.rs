use vstd::prelude::*;
use vstd::string::StrSliceExecFns;

verus! {

/// What kind of container a path element addresses.
#[derive(Debug, Clone, Copy, PartialEq, Eq, Structural)]
pub enum PathElementType {
    ArrayIndex,
    HashMapKey,
}

/// One dot-separated part of a path: a map key, or an array index.
#[derive(Debug, PartialEq, Eq)]
pub enum Token {
    Key(String),
    Index(i64),
}

/// A token together with the kind of container it addresses.
#[derive(Debug, PartialEq, Eq)]
pub struct PathElement {
    pub pe_name: Token,
    pub pe_type: PathElementType,
}

/// Error of the path compiler, with the error that caused it, if any.
#[derive(Debug)]
pub struct ParserError {
    cause: Option<Box<ParserError>>,
}

/// The parts of `s` between the dots, as `str::split('.')` yields them:
/// one part for a string without a dot, an empty part at either side of a
/// leading, trailing or doubled dot.
pub open spec fn split_dots(s: Seq<char>) -> Seq<Seq<char>>
    decreases s.len(),
{
    if s.len() == 0 {
        seq![Seq::empty()]
    } else {
        let p = split_dots(s.drop_last());
        if s.last() == '.' {
            p.push(Seq::empty())
        } else {
            p.update(p.len() - 1, p.last().push(s.last()))
        }
    }
}

/// A part written as an index: it starts with `[` and ends with `]`.
pub open spec fn bracketed(t: Seq<char>) -> bool {
    t.len() > 0 && t[0] == '[' && t.last() == ']'
}

/// The parts of `segs` that are map keys, in order.
pub open spec fn key_segments(segs: Seq<Seq<char>>) -> Seq<Seq<char>>
    decreases segs.len(),
{
    if segs.len() == 0 {
        Seq::empty()
    } else if bracketed(segs.last()) {
        key_segments(segs.drop_last())
    } else {
        key_segments(segs.drop_last()).push(segs.last())
    }
}

/// The keys of the path `source`, in order.
pub open spec fn path_keys(source: Seq<char>) -> Seq<Seq<char>> {
    key_segments(split_dots(source))
}

/// `t` is the key token `k`.
pub open spec fn is_key(t: Token, k: Seq<char>) -> bool {
    t is Key && t->Key_0@ == k
}

pub open spec fn is_digit(c: char) -> bool {
    '0' <= c && c <= '9'
}

pub open spec fn all_digits(d: Seq<char>) -> bool {
    d.len() > 0 && forall|i: int| 0 <= i < d.len() ==> is_digit(#[trigger] d[i])
}

pub open spec fn digits_value(d: Seq<char>) -> int
    decreases d.len(),
{
    if d.len() == 0 {
        0
    } else {
        digits_value(d.drop_last()) * 10 + (d.last() as int - '0' as int)
    }
}

/// The value of a decimal integer literal: an optional sign, then digits.
pub open spec fn decimal_value(s: Seq<char>) -> Option<int> {
    if s.len() > 0 && s[0] == '-' && all_digits(s.drop_first()) {
        Some(-digits_value(s.drop_first()))
    } else if s.len() > 0 && s[0] == '+' && all_digits(s.drop_first()) {
        Some(digits_value(s.drop_first()))
    } else if all_digits(s) {
        Some(digits_value(s))
    } else {
        None
    }
}

/// Relies on `<i64 as FromStr>::from_str`: an optional `+` or `-` followed by
/// decimal digits, with no other character, whose value fits in an `i64`.
#[verifier::external_body]
fn parse_i64(s: &str) -> (r: Option<i64>)
    ensures
        r == (match decimal_value(s@) {
            Some(v) => if i64::MIN <= v <= i64::MAX { Some(v as i64) } else { None },
            None => None,
        }),
{
    s.parse::<i64>().ok()
}

impl Token {
    /// The token that the path part `s` stands for.
    pub open spec fn spec_from_string(s: String) -> Token {
        if bracketed(s@) {
            Token::Index(-1i64)
        } else {
            Token::Key(s)
        }
    }

    /// A part in brackets is an index: it is read as an integer, and is
    /// `-1` where that fails; any other part is a key.
    pub fn from_string(s: String) -> (t: Token)
        ensures
            t == Token::spec_from_string(s),
    {
        let n = s.as_str().unicode_len();
        if n > 0 && s.as_str().get_char(0) == '[' && s.as_str().get_char(n - 1) == ']' {
            match parse_i64(s.as_str()) {
                Some(v) => Token::Index(v),
                None => Token::Index(-1),
            }
        } else {
            Token::Key(s)
        }
    }
}

impl From<String> for Token {
    fn from(s: String) -> (t: Token) {
        Token::from_string(s)
    }
}

impl vstd::std_specs::convert::FromSpecImpl<String> for Token {
    open spec fn obeys_from_spec() -> bool {
        true
    }

    open spec fn from_spec(v: String) -> Token {
        Token::spec_from_string(v)
    }
}

impl PathElement {
    /// The element for token `t`: an index addresses an array, a key a map.
    pub open spec fn spec_from_token(t: Token) -> PathElement {
        PathElement {
            pe_type: match t {
                Token::Key(_) => PathElementType::HashMapKey,
                Token::Index(_) => PathElementType::ArrayIndex,
            },
            pe_name: t,
        }
    }

    pub fn from_token(t: Token) -> (e: PathElement)
        ensures
            e == PathElement::spec_from_token(t),
    {
        match t {
            Token::Key(_) => PathElement { pe_name: t, pe_type: PathElementType::HashMapKey },
            Token::Index(_) => PathElement { pe_name: t, pe_type: PathElementType::ArrayIndex },
        }
    }
}

impl From<Token> for PathElement {
    fn from(t: Token) -> (e: PathElement) {
        PathElement::from_token(t)
    }
}

impl vstd::std_specs::convert::FromSpecImpl<Token> for PathElement {
    open spec fn obeys_from_spec() -> bool {
        true
    }

    open spec fn from_spec(v: Token) -> PathElement {
        PathElement::spec_from_token(v)
    }
}

impl ParserError {
    /// The error that caused this one, if any.
    pub closed spec fn spec_cause(&self) -> Option<Box<ParserError>> {
        self.cause
    }

    pub fn new(cause: Option<Box<ParserError>>) -> (e: ParserError)
        ensures
            e.spec_cause() == cause,
    {
        ParserError { cause: cause }
    }

    /// The error that caused this one, if any.
    pub fn cause(&self) -> (r: Option<&ParserError>)
        ensures
            match self.spec_cause() {
                Some(b) => r == Some(&*b),
                None => r is None,
            },
    {
        match &self.cause {
            Some(b) => Some(&**b),
            None => None,
        }
    }

    /// A short description of the error.
    pub fn description(&self) -> (r: &'static str)
        ensures
            r@ == "ParserError"@,
    {
        "ParserError"
    }

    /// The error as text.
    pub fn to_string(&self) -> (r: String)
        ensures
            r@ == "[ParserError]"@,
    {
        "[ParserError]".to_owned()
    }
}

/// The parts of `s` between the dots.
fn split_parts(s: &str) -> (r: Vec<String>)
    ensures
        r.len() == split_dots(s@).len(),
        forall|i: int| 0 <= i < r.len() ==> #[trigger] r[i]@ == split_dots(s@)[i],
{
    let n = s.unicode_len();
    let mut r: Vec<String> = Vec::new();
    let mut start: usize = 0;
    let mut i: usize = 0;
    while i < n
        invariant
            n == s@.len(),
            start <= i <= n,
            split_dots(s@.subrange(0, i as int)).len() == r.len() + 1,
            split_dots(s@.subrange(0, i as int)).last() == s@.subrange(start as int, i as int),
            forall|j: int|
                0 <= j < r.len() ==> #[trigger] r[j]@ == split_dots(s@.subrange(0, i as int))[j],
        decreases n - i,
    {
        let ghost prev = s@.subrange(0, i as int);
        assert(s@.subrange(0, i + 1).drop_last() =~= prev);
        if s.get_char(i) == '.' {
            r.push(s.substring_char(start, i).to_owned());
            start = i + 1;
            assert(s@.subrange(start as int, i + 1) =~= Seq::<char>::empty());
        } else {
            assert(s@.subrange(start as int, i + 1) =~= s@.subrange(start as int, i as int).push(
                s@[i as int],
            ));
        }
        i = i + 1;
    }
    r.push(s.substring_char(start, n).to_owned());
    assert(s@.subrange(0, n as int) =~= s@);
    r
}

fn tokenize(source: String) -> (r: Result<Vec<Token>, ParserError>)
    ensures
        r is Ok,
        r->Ok_0.len() == path_keys(source@).len(),
        forall|i: int| 0 <= i < r->Ok_0.len() ==> is_key(#[trigger] r->Ok_0[i], path_keys(source@)[i]),
{
    let parts = split_parts(source.as_str());
    let ghost segs = split_dots(source@);
    let mut tokens: Vec<Token> = Vec::new();
    let mut i: usize = 0;
    while i < parts.len()
        invariant
            i <= parts.len(),
            parts.len() == segs.len(),
            forall|j: int| 0 <= j < parts.len() ==> #[trigger] parts[j]@ == segs[j],
            tokens.len() == key_segments(segs.subrange(0, i as int)).len(),
            forall|j: int|
                0 <= j < tokens.len() ==> is_key(
                    #[trigger] tokens[j],
                    key_segments(segs.subrange(0, i as int))[j],
                ),
        decreases parts.len() - i,
    {
        assert(segs.subrange(0, i + 1).drop_last() =~= segs.subrange(0, i as int));
        let t = Token::from_string(parts[i].clone());
        match t {
            Token::Index(v) => {
                if v >= 0 {
                    tokens.push(Token::Index(v));
                }
            },
            other => {
                tokens.push(other);
            },
        }
        i = i + 1;
    }
    assert(segs.subrange(0, segs.len() as int) =~= segs);
    Ok(tokens)
}

/// Compiles a dotted path into its elements: one map key for each part
/// between the dots, in order; parts written in brackets are left out.
pub fn compile(source: &str) -> (r: Result<Vec<PathElement>, ParserError>)
    ensures
        r is Ok,
        r->Ok_0.len() == path_keys(source@).len(),
        forall|i: int|
            0 <= i < r->Ok_0.len() ==> {
                &&& #[trigger] r->Ok_0[i].pe_type == PathElementType::HashMapKey
                &&& is_key(r->Ok_0[i].pe_name, path_keys(source@)[i])
            },
{
    match tokenize(source.to_owned()) {
        Ok(tokens) => {
            let mut rest = tokens;
            let ghost orig = rest@;
            let mut elems: Vec<PathElement> = Vec::new();
            while rest.len() > 0
                invariant
                    elems.len() <= orig.len(),
                    rest@ == orig.subrange(elems.len() as int, orig.len() as int),
                    forall|j: int|
                        0 <= j < elems.len() ==> #[trigger] elems[j] == PathElement::spec_from_token(
                            orig[j],
                        ),
                decreases rest.len(),
            {
                let t = rest.remove(0);
                elems.push(PathElement::from_token(t));
            }
            Ok(elems)
        },
        Err(e) => Err(ParserError::new(Some(Box::new(e)))),
    }
}

} // verus!
