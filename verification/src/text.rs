//! Character-level helpers shared by the directive parsers.
use vstd::prelude::*;
use vstd::std_specs::iter::IteratorSpec;

verus! {

/// ASCII lower-casing of one character: `'A'..='Z'` map to `'a'..='z'`,
/// every other character is unchanged.
pub open spec fn lower_char(c: char) -> char {
    if 'A' <= c && c <= 'Z' {
        ((c as u8 + 32) as u8) as char
    } else {
        c
    }
}

/// ASCII lower-casing of a whole string.
pub open spec fn lower(s: Seq<char>) -> Seq<char> {
    s.map_values(|c: char| lower_char(c))
}

/// Two strings are equal up to ASCII case.
pub open spec fn same_ignoring_case(a: Seq<char>, b: Seq<char>) -> bool {
    lower(a) == lower(b)
}

/// The texts of a list of strings.
pub open spec fn texts(parts: Seq<String>) -> Seq<Seq<char>> {
    parts.map_values(|part: String| part@)
}

/// `i` is the position of the first occurrence of `c` in `s`.
pub open spec fn first_at(s: Seq<char>, c: char, i: int) -> bool {
    &&& 0 <= i < s.len()
    &&& s[i] == c
    &&& forall|j: int| 0 <= j < i ==> s[j] != c
}

/// The position of the first occurrence of `c` in `s`; meaningful only when
/// `s` contains `c`.
pub open spec fn first_index(s: Seq<char>, c: char) -> int {
    choose|i: int| first_at(s, c, i)
}

/// What stands before the first `c` in `s`.
pub open spec fn before_first(s: Seq<char>, c: char) -> Seq<char> {
    s.take(first_index(s, c))
}

/// What stands after the first `c` in `s`.
pub open spec fn after_first(s: Seq<char>, c: char) -> Seq<char> {
    s.skip(first_index(s, c) + 1)
}

/// The first occurrence of a character is unique.
pub proof fn lemma_first_index(s: Seq<char>, c: char, i: int)
    requires
        first_at(s, c, i),
    ensures
        first_index(s, c) == i,
        s.contains(c),
{
}

/// Before an occurrence of a character stands its first occurrence.
proof fn lemma_first_before(s: Seq<char>, c: char, i: int)
    requires
        0 <= i < s.len(),
        s[i] == c,
    ensures
        exists|p: int| first_at(s, c, p),
    decreases i,
{
    if exists|j: int| 0 <= j < i && s[j] == c {
        let j = choose|j: int| 0 <= j < i && s[j] == c;
        lemma_first_before(s, c, j);
    } else {
        assert(first_at(s, c, i));
    }
}

/// A text that contains a character has a first occurrence of it.
pub proof fn lemma_first_occurrence(s: Seq<char>, c: char)
    requires
        s.contains(c),
    ensures
        first_at(s, c, first_index(s, c)),
{
    let i = choose|i: int| 0 <= i < s.len() && s[i] == c;
    lemma_first_before(s, c, i);
}

/// Lower-casing turns a capital letter into the small letter 32 places on,
/// and leaves every other character alone.
pub proof fn lemma_lower_char(c: char)
    ensures
        'A' <= c && c <= 'Z' ==> 'a' <= lower_char(c) && lower_char(c) <= 'z' && lower_char(c) as u32
            == c as u32 + 32,
        !('A' <= c && c <= 'Z') ==> lower_char(c) == c,
{
}

/// Lower-casing keeps the length and works character by character.
pub proof fn lemma_lower(s: Seq<char>)
    ensures
        lower(s).len() == s.len(),
        forall|i: int| 0 <= i < s.len() ==> #[trigger] lower(s)[i] == lower_char(s[i]),
{
}

/// The characters of `s`, in order.
pub fn to_chars(s: &str) -> (v: Vec<char>)
    ensures
        v@ == s@,
{
    let mut v: Vec<char> = Vec::new();
    for c in it: s.chars()
        invariant
            it.seq() == s@,
            v@ == it.seq().take(it.index() as int),
    {
        v.push(c);
    }
    v
}

/// Finds the first occurrence of `c` among `v`.
pub fn find_char(v: &Vec<char>, c: char) -> (r: Option<usize>)
    ensures
        match r {
            Some(i) => first_at(v@, c, i as int) && first_index(v@, c) == i,
            None => !v@.contains(c),
        },
{
    let mut i: usize = 0;
    while i < v.len()
        invariant
            i <= v.len(),
            forall|j: int| 0 <= j < i ==> v@[j] != c,
        decreases v.len() - i,
    {
        if v[i] == c {
            proof {
                lemma_first_index(v@, c, i as int);
            }
            return Some(i);
        }
        i += 1;
    }
    None
}

/// Compares two characters up to ASCII case.
pub fn chars_match(a: char, b: char) -> (r: bool)
    ensures
        r == (lower_char(a) == lower_char(b)),
{
    let x: u32 = a as u32;
    let y: u32 = b as u32;
    if x == y {
        true
    } else if 65 <= x && x <= 90 {
        x + 32 == y
    } else if 65 <= y && y <= 90 {
        y + 32 == x
    } else {
        false
    }
}

/// Compares a token with a name up to ASCII case.
pub fn matches_name(token: &Vec<char>, name: &str) -> (r: bool)
    ensures
        r == same_ignoring_case(token@, name@),
{
    let name_chars = to_chars(name);
    if token.len() != name_chars.len() {
        assert(lower(token@).len() != lower(name@).len());
        return false;
    }
    let mut i: usize = 0;
    while i < token.len()
        invariant
            i <= token.len(),
            token.len() == name_chars.len(),
            name_chars@ == name@,
            forall|j: int| 0 <= j < i ==> lower_char(token@[j]) == lower_char(name@[j]),
        decreases token.len() - i,
    {
        if !chars_match(token[i], name_chars[i]) {
            assert(lower(token@)[i as int] != lower(name@)[i as int]);
            return false;
        }
        i += 1;
    }
    assert(lower(token@) =~= lower(name@));
    true
}

/// An ASCII decimal digit.
pub open spec fn is_digit(c: char) -> bool {
    '0' <= c && c <= '9'
}

/// The number that a decimal digit stands for.
pub open spec fn digit_value(c: char) -> nat {
    (c as u32 - '0' as u32) as nat
}

/// Every character of `s` is a decimal digit.
pub open spec fn all_digits(s: Seq<char>) -> bool {
    forall|i: int| 0 <= i < s.len() ==> is_digit(#[trigger] s[i])
}

/// The number written by the decimal digits `s`, most significant first.
pub open spec fn decimal_value(s: Seq<char>) -> nat
    decreases s.len(),
{
    if s.len() == 0 {
        0
    } else {
        10 * decimal_value(s.drop_last()) + digit_value(s.last())
    }
}

/// A column token without its optional leading `+`.
pub open spec fn unsigned_part(s: Seq<char>) -> Seq<char> {
    if s.len() > 0 && s[0] == '+' {
        s.skip(1)
    } else {
        s
    }
}

/// The column index that a token denotes: an optional `+`, then one or more
/// decimal digits whose value fits in `usize`. Anything else denotes nothing.
pub open spec fn column_value(s: Seq<char>) -> Option<nat> {
    let d = unsigned_part(s);
    if d.len() > 0 && all_digits(d) && decimal_value(d) <= usize::MAX {
        Some(decimal_value(d))
    } else {
        None
    }
}

/// Appending digits never makes the written number smaller.
pub proof fn lemma_decimal_value_grows(s: Seq<char>, k: int)
    requires
        0 <= k <= s.len(),
    ensures
        decimal_value(s.take(k)) <= decimal_value(s),
    decreases s.len() - k,
{
    if k == s.len() {
        assert(s.take(k) =~= s);
    } else {
        lemma_decimal_value_grows(s.drop_last(), k);
        assert(s.drop_last().take(k) =~= s.take(k));
    }
}

/// Reads a column index from a token.
pub fn parse_column(token: &Vec<char>) -> (r: Option<usize>)
    ensures
        match r {
            Some(n) => column_value(token@) == Some(n as nat),
            None => column_value(token@) is None,
        },
{
    let start: usize = if token.len() > 0 && token[0] == '+' {
        1
    } else {
        0
    };
    let ghost d = unsigned_part(token@);
    if start == token.len() {
        return None;
    }
    let mut acc: usize = 0;
    let mut i: usize = start;
    while i < token.len()
        invariant
            start <= i <= token.len(),
            d == token@.skip(start as int),
            d == unsigned_part(token@),
            all_digits(d.take(i - start)),
            acc == decimal_value(d.take(i - start)),
        decreases token.len() - i,
    {
        let c = token[i];
        let ghost next = d.take(i - start + 1);
        assert(next.drop_last() =~= d.take(i - start));
        if !('0' <= c && c <= '9') {
            assert(!is_digit(d[i - start]));
            return None;
        }
        let digit: usize = (c as u32 - '0' as u32) as usize;
        if acc > (usize::MAX - digit) / 10 {
            proof {
                lemma_decimal_value_grows(d, i - start + 1);
            }
            return None;
        }
        acc = acc * 10 + digit;
        i += 1;
        assert(all_digits(next));
    }
    assert(d.take(i - start) =~= d);
    Some(acc)
}

} // verus!
