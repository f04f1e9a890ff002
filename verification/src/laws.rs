//! What holds of the directive notation as a whole: a token names at most one
//! directive, a refused token names none, every kind's own notation reads
//! back as that kind, and case does not matter.
use crate::directive::{reads_as, spec_refused, Spec};
use crate::error::SpecError;
use crate::faker::{kind_refused, major_token, FakerKind, Major};
use crate::kind::{AddressKind, CompanyKind, InternetKind, LoremKind, NameKind, NumberKind};
use crate::minor::Minor;
use crate::text::{
    after_first, all_digits, before_first, column_value, decimal_value, first_at, first_index,
    is_digit, lemma_first_index, lemma_first_occurrence, lemma_lower, lemma_lower_char, lower,
    lower_char, unsigned_part,
};
use vstd::prelude::*;

verus! {

/// A text of at most eight characters, none of which is `c`, does not contain
/// `c`.
proof fn lemma_short_without(s: Seq<char>, c: char)
    requires
        s.len() <= 8,
        s.len() > 0 ==> s[0] != c,
        s.len() > 1 ==> s[1] != c,
        s.len() > 2 ==> s[2] != c,
        s.len() > 3 ==> s[3] != c,
        s.len() > 4 ==> s[4] != c,
        s.len() > 5 ==> s[5] != c,
        s.len() > 6 ==> s[6] != c,
        s.len() > 7 ==> s[7] != c,
    ensures
        !s.contains(c),
{
    assert forall|i: int| 0 <= i < s.len() implies s[i] != c by {
        assert(i == 0 || i == 1 || i == 2 || i == 3 || i == 4 || i == 5 || i == 6 || i == 7);
    }
}

/// No category's name holds a `.`.
pub proof fn lemma_major_label_plain(m: Major)
    ensures
        !m.label().contains('.'),
{
    reveal_strlit("Address");
    reveal_strlit("Boolean");
    reveal_strlit("Company");
    reveal_strlit("Lorem");
    reveal_strlit("Number");
    reveal_strlit("Internet");
    reveal_strlit("Name");
    lemma_short_without(m.label(), '.');
}

/// A token names at most one kind.
pub proof fn lemma_kind_denoted_once(a: FakerKind, b: FakerKind, token: Seq<char>)
    requires
        a.denoted_by(token),
        b.denoted_by(token),
    ensures
        a == b,
{
    if token.contains('.') {
        let major = before_first(token, '.');
        let minor = after_first(token, '.');
        Major::lemma_accepts_one(a.major(), b.major(), major);
        match (a, b) {
            (FakerKind::Address(x), FakerKind::Address(y)) => AddressKind::lemma_accepts_one(
                x,
                y,
                minor,
            ),
            (FakerKind::Company(x), FakerKind::Company(y)) => CompanyKind::lemma_accepts_one(
                x,
                y,
                minor,
            ),
            (FakerKind::Lorem(x), FakerKind::Lorem(y)) => LoremKind::lemma_accepts_one(x, y, minor),
            (FakerKind::Number(x), FakerKind::Number(y)) => NumberKind::lemma_accepts_one(
                x,
                y,
                minor,
            ),
            (FakerKind::Internet(x), FakerKind::Internet(y)) => InternetKind::lemma_accepts_one(
                x,
                y,
                minor,
            ),
            (FakerKind::Name(x), FakerKind::Name(y)) => NameKind::lemma_accepts_one(x, y, minor),
            _ => {},
        }
    }
}

/// A token names at most one directive.
pub proof fn lemma_spec_denoted_once(a: Spec, b: Spec, token: Seq<char>)
    requires
        a.denoted_by(token),
        b.denoted_by(token),
    ensures
        a == b,
{
    lemma_kind_denoted_once(a.kind, b.kind, after_first(token, ':'));
}

/// A kind token that is refused names no kind.
pub proof fn lemma_refused_kind_denotes_nothing(token: Seq<char>, e: SpecError, k: FakerKind)
    requires
        kind_refused(token, e),
    ensures
        !k.denoted_by(token),
{
}

/// A directive token that is refused names no directive: a token is either
/// read as the one directive it names, or refused.
pub proof fn lemma_refused_spec_denotes_nothing(token: Seq<char>, e: SpecError, d: Spec)
    requires
        spec_refused(token, e),
    ensures
        !d.denoted_by(token),
{
    match e {
        SpecError::InvalidFormat(_) | SpecError::InvalidColumn(_) => {},
        _ => lemma_refused_kind_denotes_nothing(after_first(token, ':'), e, d.kind),
    }
}

/// Every kind's notation names that kind.
pub proof fn lemma_notation_names_kind(k: FakerKind)
    ensures
        k.denoted_by(k.notation()),
{
    let label = k.major().label();
    lemma_major_label_plain(k.major());
    match k.minor_label() {
        Some(minor) => {
            let token = label + seq!['.'] + minor;
            assert(first_at(token, '.', label.len() as int));
            lemma_first_index(token, '.', label.len() as int);
            assert(before_first(token, '.') =~= label);
            assert(after_first(token, '.') =~= minor);
        },
        None => {},
    }
}

/// The directive token made of `0:` and a kind's notation names the directive
/// for column 0 with that kind.
pub proof fn lemma_notation_round_trip(k: FakerKind)
    ensures
        (Spec { column: 0, kind: k }).denoted_by(seq!['0', ':'] + k.notation()),
{
    let token = seq!['0', ':'] + k.notation();
    lemma_first_index(token, ':', 1);
    let column = before_first(token, ':');
    assert(after_first(token, ':') =~= k.notation());
    assert(decimal_value(column.drop_last()) == 0);
    lemma_notation_names_kind(k);
}

/// Reading a token has one outcome: the token names a directive and is read
/// as that one, or it names none and is refused.
pub proof fn lemma_reading_is_determined(
    token: Seq<char>,
    a: Result<Spec, SpecError>,
    b: Result<Spec, SpecError>,
)
    requires
        reads_as(token, a),
        reads_as(token, b),
    ensures
        a is Ok <==> b is Ok,
        a is Ok ==> a == b,
{
    match (a, b) {
        (Ok(x), Ok(y)) => lemma_spec_denoted_once(x, y, token),
        (Ok(x), Err(e)) => lemma_refused_spec_denotes_nothing(token, e, x),
        (Err(e), Ok(y)) => lemma_refused_spec_denotes_nothing(token, e, y),
        (Err(_), Err(_)) => {},
    }
}

/// For every kind, the token made of `0:` and the kind's notation is read as
/// the directive for column 0 with that kind.
pub proof fn lemma_notation_reads_back(k: FakerKind, r: Result<Spec, SpecError>)
    requires
        reads_as(seq!['0', ':'] + k.notation(), r),
    ensures
        r == Ok::<Spec, SpecError>(Spec { column: 0, kind: k }),
{
    lemma_notation_round_trip(k);
    lemma_reading_is_determined(
        seq!['0', ':'] + k.notation(),
        r,
        Ok(Spec { column: 0, kind: k }),
    );
}

/// Lower-casing leaves every character that is no letter where it stands:
/// texts that are equal up to case hold such a character at the same places.
pub proof fn lemma_case_keeps_marks(a: Seq<char>, b: Seq<char>, c: char)
    requires
        lower(a) == lower(b),
        !('a' <= c && c <= 'z'),
        !('A' <= c && c <= 'Z'),
    ensures
        a.len() == b.len(),
        forall|i: int| 0 <= i < a.len() ==> (a[i] == c <==> b[i] == c),
        a.contains(c) == b.contains(c),
        a.contains(c) ==> first_index(a, c) == first_index(b, c),
{
    lemma_lower(a);
    lemma_lower(b);
    assert forall|i: int| 0 <= i < a.len() implies (a[i] == c <==> b[i] == c) by {
        assert(lower(b)[i] == lower_char(b[i]));
        lemma_lower_char(a[i]);
        lemma_lower_char(b[i]);
    }
    if a.contains(c) {
        lemma_first_occurrence(a, c);
        let p = first_index(a, c);
        lemma_first_index(b, c, p);
    }
    if b.contains(c) {
        lemma_first_occurrence(b, c);
        let p = first_index(b, c);
        lemma_first_index(a, c, p);
    }
}

/// Parts cut at the same places from texts that are equal up to case are
/// equal up to case.
pub proof fn lemma_case_of_parts(a: Seq<char>, b: Seq<char>, from: int, to: int)
    requires
        lower(a) == lower(b),
        0 <= from <= to <= a.len(),
    ensures
        lower(a.subrange(from, to)) == lower(b.subrange(from, to)),
{
    lemma_lower(a);
    lemma_lower(b);
    lemma_lower(a.subrange(from, to));
    lemma_lower(b.subrange(from, to));
    assert forall|i: int| 0 <= i < to - from implies lower(a.subrange(from, to))[i] == lower(
        b.subrange(from, to),
    )[i] by {
        assert(lower(b)[from + i] == lower_char(b[from + i]));
    }
}

/// Column tokens that are equal up to case denote the same column.
pub proof fn lemma_case_of_column(a: Seq<char>, b: Seq<char>)
    requires
        lower(a) == lower(b),
    ensures
        column_value(a) == column_value(b),
{
    lemma_lower(a);
    lemma_lower(b);
    assert forall|i: int| 0 <= i < a.len() implies (is_digit(a[i]) || a[i] == '+' ==> a[i] == b[i])
        && (is_digit(b[i]) || b[i] == '+' ==> a[i] == b[i]) by {
        assert(lower(b)[i] == lower_char(b[i]));
        lemma_lower_char(a[i]);
        lemma_lower_char(b[i]);
    }
    if all_digits(unsigned_part(a)) || all_digits(unsigned_part(b)) {
        assert(unsigned_part(a) =~= unsigned_part(b));
    }
}

/// Kind tokens that are equal up to case name the same kinds.
pub proof fn lemma_case_of_kind(k: FakerKind, a: Seq<char>, b: Seq<char>)
    requires
        lower(a) == lower(b),
    ensures
        k.denoted_by(a) == k.denoted_by(b),
{
    lemma_case_keeps_marks(a, b, '.');
    if a.contains('.') {
        lemma_first_occurrence(a, '.');
        let p = first_index(a, '.');
        lemma_case_of_parts(a, b, 0, p);
        lemma_case_of_parts(a, b, p + 1, a.len() as int);
    }
}

/// Case does not matter: directive tokens that are equal up to ASCII case name
/// the same directives.
pub proof fn lemma_case_variation(d: Spec, a: Seq<char>, b: Seq<char>)
    requires
        lower(a) == lower(b),
    ensures
        d.denoted_by(a) == d.denoted_by(b),
{
    lemma_case_keeps_marks(a, b, ':');
    if a.contains(':') {
        lemma_first_occurrence(a, ':');
        let p = first_index(a, ':');
        lemma_case_of_parts(a, b, 0, p);
        lemma_case_of_parts(a, b, p + 1, a.len() as int);
        lemma_case_of_column(before_first(a, ':'), before_first(b, ':'));
        lemma_case_of_kind(d.kind, after_first(a, ':'), after_first(b, ':'));
    }
}

/// Tokens that are equal up to ASCII case are read alike: both are refused, or
/// both are read as the same directive.
pub proof fn lemma_case_reads_alike(
    a: Seq<char>,
    b: Seq<char>,
    ra: Result<Spec, SpecError>,
    rb: Result<Spec, SpecError>,
)
    requires
        lower(a) == lower(b),
        reads_as(a, ra),
        reads_as(b, rb),
    ensures
        ra is Ok <==> rb is Ok,
        ra is Ok ==> ra == rb,
{
    match ra {
        Ok(d) => {
            lemma_case_variation(d, a, b);
            lemma_reading_is_determined(b, rb, Ok(d));
        },
        Err(_) => {
            match rb {
                Ok(d) => {
                    lemma_case_variation(d, a, b);
                    lemma_reading_is_determined(a, ra, Ok(d));
                },
                Err(_) => {},
            }
        },
    }
}

} // verus!
