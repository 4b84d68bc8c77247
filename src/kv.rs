use vstd::prelude::*;
use vstd::string::StrSliceExecFns;

verus! {

pub open spec fn no_newline(t: Seq<char>) -> bool {
    forall|i: int| 0 <= i < t.len() ==> #[trigger] t[i] != '\n'
}

pub open spec fn is_quote(c: char) -> bool {
    c == '\'' || c == '"'
}

/// The value that the text `r` after `=` stands for: the text between a
/// pair of double or of single quotes, or unquoted text of at least two
/// characters that neither starts nor ends with a quote. Only the first and
/// last character of unquoted text may be a line break.
pub open spec fn value_of(r: Seq<char>) -> Option<Seq<char>> {
    if r.len() >= 2 && r[0] == '"' && r.last() == '"' && no_newline(r.subrange(1, r.len() - 1)) {
        Some(r.subrange(1, r.len() - 1))
    } else if r.len() >= 2 && r[0] == '\'' && r.last() == '\'' && no_newline(
        r.subrange(1, r.len() - 1),
    ) {
        Some(r.subrange(1, r.len() - 1))
    } else if r.len() >= 2 && !is_quote(r[0]) && !is_quote(r.last()) && no_newline(
        r.subrange(1, r.len() - 1),
    ) {
        Some(r)
    } else {
        None
    }
}

/// The split of `s` at the last `=` before position `k` whose key has no line
/// break and whose remainder is a value.
pub open spec fn kv_before(s: Seq<char>, k: int) -> Option<(Seq<char>, Seq<char>)>
    decreases k,
{
    if k <= 0 {
        None
    } else if s[k - 1] == '=' && no_newline(s.subrange(0, k - 1)) && value_of(
        s.subrange(k, s.len() as int),
    ) is Some {
        Some((s.subrange(0, k - 1), value_of(s.subrange(k, s.len() as int))->Some_0))
    } else {
        kv_before(s, k - 1)
    }
}

/// The key and value of `s`: the key is as long as it can be.
pub open spec fn kv_of(s: Seq<char>) -> Option<(Seq<char>, Seq<char>)> {
    kv_before(s, s.len() as int)
}

fn chars_of(s: &str) -> (c: Vec<char>)
    ensures
        c@ == s@,
{
    let n = s.unicode_len();
    let mut c: Vec<char> = Vec::new();
    let mut i: usize = 0;
    while i < n
        invariant
            n == s@.len(),
            i <= n,
            c@ == s@.subrange(0, i as int),
        decreases n - i,
    {
        c.push(s.get_char(i));
        i = i + 1;
        assert(c@ =~= s@.subrange(0, i as int));
    }
    assert(c@ =~= s@);
    c
}

fn no_newline_in(c: &Vec<char>, a: usize, b: usize) -> (r: bool)
    requires
        a <= b <= c.len(),
    ensures
        r == no_newline(c@.subrange(a as int, b as int)),
{
    let mut i: usize = a;
    while i < b
        invariant
            a <= i <= b <= c.len(),
            no_newline(c@.subrange(a as int, i as int)),
        decreases b - i,
    {
        if c[i] == '\n' {
            assert(c@.subrange(a as int, b as int)[i - a] == '\n');
            return false;
        }
        i = i + 1;
        assert forall|j: int| 0 <= j < i - a implies #[trigger] c@.subrange(
            a as int,
            i as int,
        )[j] != '\n' by {
            if j < i - 1 - a {
                assert(c@.subrange(a as int, i - 1)[j] == c@.subrange(a as int, i as int)[j]);
            }
        }
    }
    true
}

/// Where the value of the text from `from` to the end stands, if it is one.
fn value_span(c: &Vec<char>, from: usize) -> (r: Option<(usize, usize)>)
    requires
        from <= c.len(),
    ensures
        match value_of(c@.subrange(from as int, c.len() as int)) {
            None => r is None,
            Some(v) => r is Some && r->Some_0.0 <= r->Some_0.1 <= c.len() && v == c@.subrange(
                r->Some_0.0 as int,
                r->Some_0.1 as int,
            ),
        },
{
    let n = c.len();
    let ghost rest = c@.subrange(from as int, n as int);
    if n - from < 2 {
        return None;
    }
    assert(rest.subrange(1, rest.len() - 1) =~= c@.subrange(from + 1, n - 1));
    let inner_ok = no_newline_in(c, from + 1, n - 1);
    let first = c[from];
    let last = c[n - 1];
    if first == '"' && last == '"' && inner_ok {
        Some((from + 1, n - 1))
    } else if first == '\'' && last == '\'' && inner_ok {
        Some((from + 1, n - 1))
    } else if first != '\'' && first != '"' && last != '\'' && last != '"' && inner_ok {
        Some((from, n))
    } else {
        None
    }
}

/// Splits `key=value` text into its key and its value. The value is quoted
/// with double or single quotes, whose inside it is, or is unquoted text
/// of at least two characters that does not start or end with a quote. The
/// key is everything before the last `=` after which such a value follows;
/// neither the key nor the inside of the value may hold a line break.
pub fn into_kv_tpl(s: String) -> (r: Option<(String, String)>)
    ensures
        match kv_of(s@) {
            None => r is None,
            Some(kv) => r is Some && r->Some_0.0@ == kv.0 && r->Some_0.1@ == kv.1,
        },
{
    let c = chars_of(s.as_str());
    let n = c.len();
    let mut k: usize = n;
    while k > 0
        invariant
            k <= n == c.len(),
            c@ == s@,
            kv_of(s@) == kv_before(s@, k as int),
        decreases k,
    {
        if c[k - 1] == '=' && no_newline_in(&c, 0, k - 1) {
            match value_span(&c, k) {
                Some((a, b)) => {
                    let key = s.as_str().substring_char(0, k - 1).to_owned();
                    let value = s.as_str().substring_char(a, b).to_owned();
                    return Some((key, value));
                },
                None => {},
            }
        }
        k = k - 1;
    }
    None
}

} // verus!
