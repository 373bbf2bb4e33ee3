//! Character-level helpers shared by the lexer, the parser and the emitter.

use vstd::prelude::*;
use vstd::string::*;

verus! {

/// Whether a character has the Unicode `White_Space` property, as
/// `char::is_whitespace` reports it.
pub uninterp spec fn is_whitespace(c: char) -> bool;

/// `char::is_whitespace` is a function of the character alone; its answer is
/// named `is_whitespace` and nothing more is claimed of it.
pub assume_specification[ char::is_whitespace ](c: char) -> (r: bool)
    ensures
        r == is_whitespace(c),
;

/// `String::push` appends exactly the given character to the end of the
/// string.
pub assume_specification[ String::push ](s: &mut String, c: char)
    ensures
        final(s)@ == old(s)@.push(c),
;

/// The texts of a list of strings, in order.
pub open spec fn texts(values: Seq<String>) -> Seq<Seq<char>> {
    values.map_values(|s: String| s@)
}

/// A copy of a list of strings.
pub fn clone_strings(values: &Vec<String>) -> (r: Vec<String>)
    ensures
        r@ == values@,
{
    let mut r: Vec<String> = Vec::new();
    let mut i: usize = 0;
    while i < values.len()
        invariant
            i <= values.len(),
            r@ == values@.take(i as int),
        decreases values.len() - i,
    {
        r.push(values[i].clone());
        assert(values@.take(i + 1) =~= values@.take(i as int).push(values@[i as int]));
        i += 1;
    }
    assert(values@.take(values.len() as int) =~= values@);
    r
}

/// The characters of a string, in order.
pub fn chars_of(s: &str) -> (v: Vec<char>)
    ensures
        v@ == s@,
{
    let mut v: Vec<char> = Vec::new();
    for c in it: s.chars()
        invariant
            it.seq() == s@,
            v@ == it.seq().take(it.index() as int),
    {
        v.push(c);
        assert(it.seq().take(it.index() + 1) =~= it.seq().take(it.index() as int).push(c));
    }
    assert(s@.take(s@.len() as int) =~= s@);
    v
}

/// The string made of `chars[from..to]`.
pub fn string_of(chars: &Vec<char>, from: usize, to: usize) -> (s: String)
    requires
        from <= to <= chars.len(),
    ensures
        s@ == chars@.subrange(from as int, to as int),
{
    let mut s = String::new();
    let mut i: usize = from;
    while i < to
        invariant
            from <= i <= to <= chars.len(),
            s@ == chars@.subrange(from as int, i as int),
        decreases to - i,
    {
        s.push(chars[i]);
        assert(chars@.subrange(from as int, i + 1) =~= chars@.subrange(from as int, i as int).push(
            chars@[i as int],
        ));
        i += 1;
    }
    s
}

/// `a` followed by `b`.
pub fn join2(a: &str, b: &str) -> (s: String)
    ensures
        s@ == a@ + b@,
{
    let mut s = String::from_str(a);
    s.append(b);
    s
}

/// `a`, `b` and `c` in a row.
pub fn join3(a: &str, b: &str, c: &str) -> (s: String)
    ensures
        s@ == a@ + b@ + c@,
{
    let mut s = String::from_str(a);
    s.append(b);
    s.append(c);
    s
}

/// Whether two strings hold the same characters.
pub fn same_text(a: &str, b: &str) -> (r: bool)
    ensures
        r == (a@ == b@),
{
    let x = a.to_owned();
    let y = b.to_owned();
    x == y
}

/// The first index at or after `i` that holds no whitespace, or the length.
pub open spec fn solid_start(s: Seq<char>, i: int) -> int
    decreases s.len() - i,
{
    if 0 <= i < s.len() && is_whitespace(s[i]) {
        solid_start(s, i + 1)
    } else {
        i
    }
}

/// The end of the last run of non-whitespace before `j`, not below `lo`.
pub open spec fn solid_end(s: Seq<char>, lo: int, j: int) -> int
    decreases j - lo,
{
    if 0 <= lo < j <= s.len() && is_whitespace(s[j - 1]) {
        solid_end(s, lo, j - 1)
    } else {
        j
    }
}

/// A text without its leading and trailing whitespace.
pub open spec fn trimmed(s: Seq<char>) -> Seq<char> {
    let a = solid_start(s, 0);
    s.subrange(a, solid_end(s, a, s.len() as int))
}

/// `solid_start` stays within the text and stops on a solid character.
pub proof fn lemma_solid_start(s: Seq<char>, i: int)
    requires
        0 <= i <= s.len(),
    ensures
        i <= solid_start(s, i) <= s.len(),
        forall|k: int| i <= k < solid_start(s, i) ==> is_whitespace(#[trigger] s[k]),
        solid_start(s, i) < s.len() ==> !is_whitespace(s[solid_start(s, i)]),
    decreases s.len() - i,
{
    if i < s.len() && is_whitespace(s[i]) {
        lemma_solid_start(s, i + 1);
    }
}

/// `solid_end` stays between `lo` and `j` and stops after a solid character.
pub proof fn lemma_solid_end(s: Seq<char>, lo: int, j: int)
    requires
        0 <= lo <= j <= s.len(),
    ensures
        lo <= solid_end(s, lo, j) <= j,
        forall|k: int| solid_end(s, lo, j) <= k < j ==> is_whitespace(#[trigger] s[k]),
        solid_end(s, lo, j) > lo ==> !is_whitespace(s[solid_end(s, lo, j) - 1]),
    decreases j - lo,
{
    if lo < j && is_whitespace(s[j - 1]) {
        lemma_solid_end(s, lo, j - 1);
    }
}

/// Trimming removes whitespace only, and leaves none at either end.
pub proof fn lemma_trimmed(s: Seq<char>)
    ensures
        trimmed(s).len() <= s.len(),
        trimmed(s).len() > 0 ==> !is_whitespace(trimmed(s).first()) && !is_whitespace(
            trimmed(s).last(),
        ),
        (forall|k: int| 0 <= k < s.len() ==> !is_whitespace(#[trigger] s[k])) ==> trimmed(s) == s,
{
    lemma_solid_start(s, 0);
    let a = solid_start(s, 0);
    lemma_solid_end(s, a, s.len() as int);
    if forall|k: int| 0 <= k < s.len() ==> !is_whitespace(#[trigger] s[k]) {
        assert(trimmed(s) =~= s);
    }
}

/// A copy of `s` without its leading and trailing whitespace.
pub fn trim(s: &str) -> (r: String)
    ensures
        r@ == trimmed(s@),
{
    let chars = chars_of(s);
    let n = chars.len();
    let mut a: usize = 0;
    while a < n && chars[a].is_whitespace()
        invariant
            n == chars.len(),
            0 <= a <= n,
            solid_start(chars@, 0) == solid_start(chars@, a as int),
        decreases n - a,
    {
        a += 1;
    }
    let mut b: usize = n;
    while b > a && chars[b - 1].is_whitespace()
        invariant
            n == chars.len(),
            a <= b <= n,
            solid_end(chars@, a as int, n as int) == solid_end(chars@, a as int, b as int),
        decreases b,
    {
        b -= 1;
    }
    string_of(&chars, a, b)
}

/// The character of a decimal digit.
pub open spec fn digit(d: nat) -> char
    recommends
        d < 10,
{
    if d == 0 {
        '0'
    } else if d == 1 {
        '1'
    } else if d == 2 {
        '2'
    } else if d == 3 {
        '3'
    } else if d == 4 {
        '4'
    } else if d == 5 {
        '5'
    } else if d == 6 {
        '6'
    } else if d == 7 {
        '7'
    } else if d == 8 {
        '8'
    } else {
        '9'
    }
}

/// The decimal numeral of a natural number, without leading zeros.
pub open spec fn decimal(n: nat) -> Seq<char>
    decreases n,
{
    if n < 10 {
        seq![digit(n)]
    } else {
        decimal(n / 10).push(digit(n % 10))
    }
}

fn digit_char(d: usize) -> (c: char)
    requires
        d < 10,
    ensures
        c == digit(d as nat),
{
    if d == 0 {
        '0'
    } else if d == 1 {
        '1'
    } else if d == 2 {
        '2'
    } else if d == 3 {
        '3'
    } else if d == 4 {
        '4'
    } else if d == 5 {
        '5'
    } else if d == 6 {
        '6'
    } else if d == 7 {
        '7'
    } else if d == 8 {
        '8'
    } else {
        '9'
    }
}

/// The decimal numeral of `n`.
pub fn decimal_string(n: usize) -> (s: String)
    ensures
        s@ == decimal(n as nat),
    decreases n,
{
    if n < 10 {
        let mut s = String::new();
        s.push(digit_char(n));
        assert(s@ =~= seq![digit(n as nat)]);
        s
    } else {
        let mut s = decimal_string(n / 10);
        s.push(digit_char(n % 10));
        s
    }
}

} // verus!
