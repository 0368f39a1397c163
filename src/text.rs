//! Splitting lines into tokens and reading the small values that tokens hold.
use vstd::prelude::*;
use vstd::string::StrSliceExecFns;

verus! {

/// The fields of `s` between occurrences of `sep`, as `str::split` yields
/// them: empty fields are kept, and the result is never empty.
pub open spec fn split_spec(s: Seq<char>, sep: char) -> Seq<Seq<char>>
    decreases s.len(),
{
    if s.len() == 0 {
        seq![Seq::<char>::empty()]
    } else {
        let rest = split_spec(s.drop_last(), sep);
        if s.last() == sep {
            rest.push(Seq::<char>::empty())
        } else {
            rest.update(rest.len() - 1, rest.last().push(s.last()))
        }
    }
}

pub proof fn lemma_split_nonempty(s: Seq<char>, sep: char)
    ensures
        split_spec(s, sep).len() >= 1,
    decreases s.len(),
{
    if s.len() > 0 {
        lemma_split_nonempty(s.drop_last(), sep);
    }
}

/// Splits `s` at every `sep`, keeping empty fields.
pub fn split_on(s: &str, sep: char) -> (r: Vec<String>)
    ensures
        r.deep_view() == split_spec(s@, sep),
{
    let n = s.unicode_len();
    let mut fields: Vec<String> = Vec::new();
    let mut start: usize = 0;
    let mut i: usize = 0;
    assert(fields.deep_view() =~= Seq::<Seq<char>>::empty());
    assert(s@.subrange(0, 0) =~= Seq::<char>::empty());
    while i < n
        invariant
            n == s@.len(),
            start <= i <= n,
            fields.deep_view() + seq![s@.subrange(start as int, i as int)] == split_spec(
                s@.subrange(0, i as int),
                sep,
            ),
        decreases n - i,
    {
        let c = s.get_char(i);
        proof {
            lemma_split_nonempty(s@.subrange(0, i as int), sep);
            assert(s@.subrange(0, i + 1).drop_last() =~= s@.subrange(0, i as int));
        }
        let ghost prefix = s@.subrange(0, i as int);
        let ghost next = s@.subrange(0, i + 1);
        assert(next.last() == c);
        if c == sep {
            assert(split_spec(next, sep) == split_spec(prefix, sep).push(Seq::<char>::empty()));
            let field = s.substring_char(start, i).to_owned();
            let ghost before = fields.deep_view();
            fields.push(field);
            assert(fields.deep_view() =~= before.push(field@));
            i = i + 1;
            start = i;
            assert(s@.subrange(start as int, i as int) =~= Seq::<char>::empty());
            assert(fields.deep_view() + seq![s@.subrange(start as int, i as int)]
                =~= split_spec(s@.subrange(0, i as int), sep));
        } else {
            i = i + 1;
            assert(s@.subrange(start as int, i as int) =~= s@.subrange(
                start as int,
                i - 1,
            ).push(c));
            assert(fields.deep_view() + seq![s@.subrange(start as int, i as int)]
                =~= split_spec(s@.subrange(0, i as int), sep));
        }
    }
    let last = s.substring_char(start, n).to_owned();
    let ghost before = fields.deep_view();
    fields.push(last);
    assert(fields.deep_view() =~= before.push(last@));
    assert(s@.subrange(0, n as int) =~= s@);
    fields
}

/// Whether `t` is exactly the word `w`.
pub fn token_is(t: &String, w: &str) -> (r: bool)
    ensures
        r == (t@ == w@),
{
    let n = t.as_str().unicode_len();
    let m = w.unicode_len();
    if n != m {
        return false;
    }
    let mut i: usize = 0;
    while i < n
        invariant
            n == t@.len(),
            n == w@.len(),
            i <= n,
            forall|k: int| 0 <= k < i ==> t@[k] == w@[k],
        decreases n - i,
    {
        if t.as_str().get_char(i) != w.get_char(i) {
            return false;
        }
        i = i + 1;
    }
    assert(t@ =~= w@);
    true
}

/// The first character of a token: a glyph in the scene description.
pub fn parse_char(part: &String) -> (r: char)
    requires
        part@.len() > 0,
    ensures
        r == part@[0],
{
    part.as_str().get_char(0)
}

pub open spec fn is_digit(c: char) -> bool {
    '0' <= c <= '9'
}

/// The number that a string of decimal digits denotes.
pub open spec fn decimal_value(s: Seq<char>) -> int
    decreases s.len(),
{
    if s.len() == 0 {
        0
    } else {
        decimal_value(s.drop_last()) * 10 + (s.last() as int - '0' as int)
    }
}

/// The digits of an unsigned integer literal once an optional leading `+` is taken off.
pub open spec fn unsigned_digits(s: Seq<char>) -> Seq<char> {
    if s.len() > 0 && s[0] == '+' {
        s.drop_first()
    } else {
        s
    }
}

/// What `usize::from_str` accepts: an optional `+`, then one or more decimal
/// digits whose value fits in `usize`.
pub open spec fn usize_spec(s: Seq<char>) -> Option<int> {
    let d = unsigned_digits(s);
    if d.len() > 0 && (forall|i: int| 0 <= i < d.len() ==> is_digit(d[i])) && decimal_value(d)
        <= usize::MAX {
        Some(decimal_value(d))
    } else {
        None
    }
}

/// Relies on `<usize as FromStr>::from_str`: an optional `+` followed by decimal
/// digits is read as their value, and anything else, or a value past
/// `usize::MAX`, is an error.
#[verifier::external_body]
fn parse_usize(s: &str) -> (r: Option<usize>)
    ensures
        match usize_spec(s@) {
            Some(v) => r == Some(v as usize),
            None => r is None,
        },
{
    s.parse::<usize>().ok()
}

/// The grid size written as `width,height`; fields after the second are ignored.
pub open spec fn size_spec(v: Seq<char>) -> Option<(usize, usize)> {
    let parts = split_spec(v, ',');
    if parts.len() < 2 {
        None
    } else {
        match (usize_spec(parts[0]), usize_spec(parts[1])) {
            (Some(w), Some(h)) => Some((w as usize, h as usize)),
            _ => None,
        }
    }
}

/// Reads a grid size `width,height`; `None` where either field is not an
/// unsigned integer or the comma is missing.
pub fn parse_size(v: &String) -> (r: Option<(usize, usize)>)
    ensures
        r == size_spec(v@),
{
    let pair = split_on(v.as_str(), ',');
    if pair.len() < 2 {
        return None;
    }
    let w = parse_usize(pair[0].as_str());
    let h = parse_usize(pair[1].as_str());
    assert(pair[0]@ == split_spec(v@, ',')[0]);
    assert(pair[1]@ == split_spec(v@, ',')[1]);
    match (w, h) {
        (Some(w), Some(h)) => Some((w, h)),
        _ => None,
    }
}

} // verus!
