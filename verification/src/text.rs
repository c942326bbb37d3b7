//! Text utilities shared by the rendering and assembly layers: moving
//! between `String` and `Vec<char>`, decimal rendering of integers, and
//! the two escapes used inside double-quoted literals and dictionary keys.

use vstd::prelude::*;

verus! {

use vstd::std_specs::iter::IteratorSpec;

/// Relies on `String::from_iter` (via `Iterator::collect`): collecting a
/// sequence of characters yields the string with exactly those characters.
#[verifier::external_body]
pub fn chars_to_string(v: &Vec<char>) -> (r: String)
    ensures
        r@ == v@,
{
    v.iter().collect()
}

/// The characters of a string, as a vector.
pub fn string_chars(s: &str) -> (r: Vec<char>)
    ensures
        r@ == s@,
{
    broadcast use vstd::string::next_postcondition;

    let mut it = s.chars();
    let mut out: Vec<char> = Vec::new();
    loop
        invariant
            it.obeys_prophetic_iter_laws(),
            it.decrease() is Some,
            out@ + it.remaining() == s@,
        decreases it.decrease()->0,
    {
        match it.next() {
            Some(c) => {
                out.push(c);
            },
            None => {
                return out;
            },
        }
    }
}

/// The decimal digit character for a value below ten.
pub open spec fn spec_digit(n: int) -> char {
    if n == 0 {
        '0'
    } else if n == 1 {
        '1'
    } else if n == 2 {
        '2'
    } else if n == 3 {
        '3'
    } else if n == 4 {
        '4'
    } else if n == 5 {
        '5'
    } else if n == 6 {
        '6'
    } else if n == 7 {
        '7'
    } else if n == 8 {
        '8'
    } else {
        '9'
    }
}

/// The decimal rendering of a non-negative integer, without sign.
pub open spec fn spec_dec(n: int) -> Seq<char>
    recommends
        n >= 0,
    decreases n,
{
    if n < 10 {
        seq![spec_digit(n)]
    } else {
        spec_dec(n / 10) + seq![spec_digit(n % 10)]
    }
}

/// The canonical decimal rendering of an integer: a minus sign for a
/// negative value, then the digits without leading zeros.
pub open spec fn spec_int(i: int) -> Seq<char> {
    if i >= 0 {
        spec_dec(i)
    } else {
        seq!['-'] + spec_dec(-i)
    }
}

fn digit_char(n: u64) -> (c: char)
    requires
        n < 10,
    ensures
        c == spec_digit(n as int),
{
    if n == 0 {
        '0'
    } else if n == 1 {
        '1'
    } else if n == 2 {
        '2'
    } else if n == 3 {
        '3'
    } else if n == 4 {
        '4'
    } else if n == 5 {
        '5'
    } else if n == 6 {
        '6'
    } else if n == 7 {
        '7'
    } else if n == 8 {
        '8'
    } else {
        '9'
    }
}

/// The decimal digits of `n`.
pub fn u64_chars(n: u64) -> (r: Vec<char>)
    ensures
        r@ == spec_dec(n as int),
    decreases n,
{
    if n < 10 {
        let mut r: Vec<char> = Vec::new();
        r.push(digit_char(n));
        r
    } else {
        let mut r = u64_chars(n / 10);
        r.push(digit_char(n % 10));
        r
    }
}

/// The signed decimal digits of `i`.
pub fn i64_chars(i: i64) -> (r: Vec<char>)
    ensures
        r@ == spec_int(i as int),
{
    if i >= 0 {
        u64_chars(i as u64)
    } else {
        let mag: u64 = if i == i64::MIN {
            9223372036854775808u64
        } else {
            (-i) as u64
        };
        let mut r: Vec<char> = Vec::new();
        r.push('-');
        let mut digits = u64_chars(mag);
        r.append(&mut digits);
        r
    }
}

/// The decimal rendering of `n`, as a string.
pub fn u64_string(n: u64) -> (r: String)
    ensures
        r@ == spec_dec(n as int),
{
    let chars = u64_chars(n);
    chars_to_string(&chars)
}

/// The decimal rendering of `i`, as a string.
pub fn i64_string(i: i64) -> (r: String)
    ensures
        r@ == spec_int(i as int),
{
    let chars = i64_chars(i);
    chars_to_string(&chars)
}

/// How one character is escaped inside a double-quoted string literal:
/// a double quote gains a backslash, everything else stands as it is.
pub open spec fn spec_escape_quote_char(c: char) -> Seq<char> {
    if c == '"' {
        seq!['\\', '"']
    } else {
        seq![c]
    }
}

/// The escaping of a whole string for a double-quoted literal.
pub open spec fn spec_escape_quotes(s: Seq<char>) -> Seq<char>
    decreases s.len(),
{
    if s.len() == 0 {
        Seq::empty()
    } else {
        spec_escape_quote_char(s[0]) + spec_escape_quotes(s.drop_first())
    }
}

/// How one character is escaped inside a double-quoted dictionary key:
/// both the backslash and the double quote gain a backslash.
pub open spec fn spec_escape_key_char(c: char) -> Seq<char> {
    if c == '\\' {
        seq!['\\', '\\']
    } else if c == '"' {
        seq!['\\', '"']
    } else {
        seq![c]
    }
}

/// The escaping of a whole dictionary key.
pub open spec fn spec_escape_key(s: Seq<char>) -> Seq<char>
    decreases s.len(),
{
    if s.len() == 0 {
        Seq::empty()
    } else {
        spec_escape_key_char(s[0]) + spec_escape_key(s.drop_first())
    }
}

/// Escaping distributes over concatenation.
proof fn lemma_escape_quotes_append(a: Seq<char>, b: Seq<char>)
    ensures
        spec_escape_quotes(a + b) == spec_escape_quotes(a) + spec_escape_quotes(b),
    decreases a.len(),
{
    if a.len() == 0 {
        assert(a + b == b);
        assert(spec_escape_quotes(a) == Seq::<char>::empty());
        assert(spec_escape_quotes(a) + spec_escape_quotes(b) == spec_escape_quotes(b));
    } else {
        lemma_escape_quotes_append(a.drop_first(), b);
        assert((a + b).drop_first() == a.drop_first() + b);
        assert((a + b)[0] == a[0]);
        assert(spec_escape_quote_char(a[0]) + (spec_escape_quotes(a.drop_first())
            + spec_escape_quotes(b)) == (spec_escape_quote_char(a[0]) + spec_escape_quotes(
            a.drop_first())) + spec_escape_quotes(b));
    }
}

/// Escaping of keys distributes over concatenation.
proof fn lemma_escape_key_append(a: Seq<char>, b: Seq<char>)
    ensures
        spec_escape_key(a + b) == spec_escape_key(a) + spec_escape_key(b),
    decreases a.len(),
{
    if a.len() == 0 {
        assert(a + b == b);
        assert(spec_escape_key(a) == Seq::<char>::empty());
        assert(spec_escape_key(a) + spec_escape_key(b) == spec_escape_key(b));
    } else {
        lemma_escape_key_append(a.drop_first(), b);
        assert((a + b).drop_first() == a.drop_first() + b);
        assert((a + b)[0] == a[0]);
        assert(spec_escape_key_char(a[0]) + (spec_escape_key(a.drop_first()) + spec_escape_key(b))
            == (spec_escape_key_char(a[0]) + spec_escape_key(a.drop_first())) + spec_escape_key(
            b));
    }
}

/// Escapes the characters of a double-quoted string literal.
pub fn escape_quotes_chars(s: &Vec<char>) -> (r: Vec<char>)
    ensures
        r@ == spec_escape_quotes(s@),
{
    let mut out: Vec<char> = Vec::new();
    let mut i: usize = 0;
    while i < s.len()
        invariant
            i <= s@.len(),
            out@ == spec_escape_quotes(s@.take(i as int)),
        decreases s@.len() - i,
    {
        let ghost prev = out@;
        let c = s[i];
        if c == '"' {
            out.push('\\');
            out.push('"');
        } else {
            out.push(c);
        }
        proof {
            let ch = s@[i as int];
            let one = seq![ch];
            assert(one.drop_first() =~= Seq::<char>::empty());
            assert(one[0] == ch);
            assert(spec_escape_quotes(Seq::<char>::empty()) =~= Seq::<char>::empty());
            assert(spec_escape_quotes(one) =~= spec_escape_quote_char(ch));
            assert(out@ =~= prev + spec_escape_quote_char(ch));
            assert(s@.take(i + 1 as int) =~= s@.take(i as int) + one);
            lemma_escape_quotes_append(s@.take(i as int), one);
        }
        i = i + 1;
    }
    proof {
        assert(s@.take(s@.len() as int) == s@);
    }
    out
}

/// Escapes the characters of a double-quoted dictionary key.
pub fn escape_key_chars(s: &Vec<char>) -> (r: Vec<char>)
    ensures
        r@ == spec_escape_key(s@),
{
    let mut out: Vec<char> = Vec::new();
    let mut i: usize = 0;
    while i < s.len()
        invariant
            i <= s@.len(),
            out@ == spec_escape_key(s@.take(i as int)),
        decreases s@.len() - i,
    {
        let ghost prev = out@;
        let c = s[i];
        if c == '\\' {
            out.push('\\');
            out.push('\\');
        } else if c == '"' {
            out.push('\\');
            out.push('"');
        } else {
            out.push(c);
        }
        proof {
            let ch = s@[i as int];
            let one = seq![ch];
            assert(one.drop_first() =~= Seq::<char>::empty());
            assert(one[0] == ch);
            assert(spec_escape_key(Seq::<char>::empty()) =~= Seq::<char>::empty());
            assert(spec_escape_key(one) =~= spec_escape_key_char(ch));
            assert(out@ =~= prev + spec_escape_key_char(ch));
            assert(s@.take(i + 1 as int) =~= s@.take(i as int) + one);
            lemma_escape_key_append(s@.take(i as int), one);
        }
        i = i + 1;
    }
    proof {
        assert(s@.take(s@.len() as int) == s@);
    }
    out
}

/// The characters of `s` from `a` (inclusive) to `b` (exclusive).
pub(crate) fn copy_range(s: &Vec<char>, a: usize, b: usize) -> (r: Vec<char>)
    requires
        a <= b <= s@.len(),
    ensures
        r@ == s@.subrange(a as int, b as int),
{
    let mut r: Vec<char> = Vec::new();
    let mut i: usize = a;
    while i < b
        invariant
            a <= i <= b <= s@.len(),
            r@ == s@.subrange(a as int, i as int),
        decreases b - i,
    {
        r.push(s[i]);
        proof {
            assert(s@.subrange(a as int, i + 1 as int) =~= s@.subrange(a as int, i as int).push(
                s@[i as int],
            ));
        }
        i = i + 1;
    }
    r
}

} // verus!
