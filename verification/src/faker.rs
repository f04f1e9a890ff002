//! The two-level generator kind and the notation that names it.
use crate::error::SpecError;
use crate::kind::{AddressKind, CompanyKind, InternetKind, LoremKind, NameKind, NumberKind};
use crate::minor::{accepts, kinds, kinds_of, lemma_kinds_complete, lookup, Minor};
use crate::text::{
    after_first, before_first, find_char, lower, matches_name, same_ignoring_case, to_chars,
};
use vstd::prelude::*;
use vstd::string::{StrSliceExecFns, StringExecFns};

verus! {

/// The major categories of generator kinds.
#[derive(Clone, Copy, Debug, PartialEq, Eq, Structural)]
pub enum Major {
    Address,
    Boolean,
    Company,
    Lorem,
    Number,
    Internet,
    Name,
}

impl Major {
    /// The category's name.
    pub open spec fn label(self) -> Seq<char> {
        match self {
            Major::Address => "Address"@,
            Major::Boolean => "Boolean"@,
            Major::Company => "Company"@,
            Major::Lorem => "Lorem"@,
            Major::Number => "Number"@,
            Major::Internet => "Internet"@,
            Major::Name => "Name"@,
        }
    }

    /// A token names this category when it equals its name up to ASCII case.
    pub open spec fn accepts(self, token: Seq<char>) -> bool {
        same_ignoring_case(token, self.label())
    }

    /// Every category, in the order in which listings show them.
    pub open spec fn listed() -> Seq<Major> {
        seq![
            Major::Name,
            Major::Address,
            Major::Company,
            Major::Lorem,
            Major::Number,
            Major::Internet,
            Major::Boolean,
        ]
    }

    /// The category's name.
    pub fn name(self) -> (r: &'static str)
        ensures
            r@ == self.label(),
    {
        match self {
            Major::Address => "Address",
            Major::Boolean => "Boolean",
            Major::Company => "Company",
            Major::Lorem => "Lorem",
            Major::Number => "Number",
            Major::Internet => "Internet",
            Major::Name => "Name",
        }
    }

    /// Every category, in listing order.
    pub fn all() -> (v: Vec<Major>)
        ensures
            v@ == Major::listed(),
    {
        vec![
            Major::Name,
            Major::Address,
            Major::Company,
            Major::Lorem,
            Major::Number,
            Major::Internet,
            Major::Boolean,
        ]
    }

    /// Looks a major token up among the categories. At most one category
    /// accepts a token (`lemma_accepts_one`), so the result is determined.
    pub fn from_str(token: &str) -> (r: Option<Major>)
        ensures
            match r {
                Some(m) => m.accepts(token@),
                None => !is_major(token@),
            },
    {
        let chars = to_chars(token);
        let all = Major::all();
        let mut i: usize = 0;
        while i < all.len()
            invariant
                i <= all.len(),
                all@ == Major::listed(),
                chars@ == token@,
                forall|j: int| 0 <= j < i ==> !all@[j].accepts(token@),
            decreases all.len() - i,
        {
            if matches_name(&chars, all[i].name()) {
                return Some(all[i]);
            }
            i += 1;
        }
        assert forall|m: Major| !m.accepts(token@) by {
            Major::lemma_listed_complete(m);
        }
        None
    }

    /// Looks a minor token up within this category.
    pub fn minor(self, token: &str) -> (r: Option<FakerKind>)
        ensures
            match r {
                Some(k) => k.major() == self && k.minor_accepts(token@),
                None => forall|k: FakerKind| k.major() == self ==> !k.minor_accepts(token@),
            },
    {
        match self {
            Major::Address => found(lookup::<AddressKind>(token)),
            Major::Boolean => None,
            Major::Company => found(lookup::<CompanyKind>(token)),
            Major::Lorem => found(lookup::<LoremKind>(token)),
            Major::Number => found(lookup::<NumberKind>(token)),
            Major::Internet => found(lookup::<InternetKind>(token)),
            Major::Name => found(lookup::<NameKind>(token)),
        }
    }

    /// The kinds of this category, in listing order.
    pub open spec fn kinds_listed(self) -> Seq<FakerKind> {
        match self {
            Major::Address => kinds_of::<AddressKind>(),
            Major::Boolean => seq![FakerKind::Boolean],
            Major::Company => kinds_of::<CompanyKind>(),
            Major::Lorem => kinds_of::<LoremKind>(),
            Major::Number => kinds_of::<NumberKind>(),
            Major::Internet => kinds_of::<InternetKind>(),
            Major::Name => kinds_of::<NameKind>(),
        }
    }

    /// The kinds of this category, in listing order.
    pub fn kinds(self) -> (kinds: Vec<FakerKind>)
        ensures
            kinds@ == self.kinds_listed(),
    {
        match self {
            Major::Address => kinds::<AddressKind>(),
            Major::Boolean => vec![FakerKind::Boolean],
            Major::Company => kinds::<CompanyKind>(),
            Major::Lorem => kinds::<LoremKind>(),
            Major::Number => kinds::<NumberKind>(),
            Major::Internet => kinds::<InternetKind>(),
            Major::Name => kinds::<NameKind>(),
        }
    }

    /// The listing holds every category.
    pub proof fn lemma_listed_complete(m: Major)
        ensures
            Major::listed().contains(m),
    {
        let all = Major::listed();
        match m {
            Major::Name => assert(all[0] == m),
            Major::Address => assert(all[1] == m),
            Major::Company => assert(all[2] == m),
            Major::Lorem => assert(all[3] == m),
            Major::Number => assert(all[4] == m),
            Major::Internet => assert(all[5] == m),
            Major::Boolean => assert(all[6] == m),
        }
    }

    /// No token names two categories.
    pub proof fn lemma_accepts_one(a: Major, b: Major, token: Seq<char>)
        requires
            a.accepts(token),
            b.accepts(token),
        ensures
            a == b,
    {
        reveal_strlit("Address");
        reveal_strlit("Boolean");
        reveal_strlit("Company");
        reveal_strlit("Lorem");
        reveal_strlit("Number");
        reveal_strlit("Internet");
        reveal_strlit("Name");
        assert(lower("Address"@).len() == 7 && lower("Address"@)[0] == 'a');
        assert(lower("Boolean"@).len() == 7 && lower("Boolean"@)[0] == 'b');
        assert(lower("Company"@).len() == 7 && lower("Company"@)[0] == 'c');
        assert(lower("Lorem"@).len() == 5);
        assert(lower("Number"@).len() == 6);
        assert(lower("Internet"@).len() == 8);
        assert(lower("Name"@).len() == 4);
    }
}

/// The kind that a found variant selects.
fn found<K: Minor>(variant: Option<K>) -> (r: Option<FakerKind>)
    ensures
        match variant {
            Some(m) => r == Some(m.kind()),
            None => r is None,
        },
{
    match variant {
        Some(m) => Some(m.wrap()),
        None => None,
    }
}

/// A generator kind: a major category and, for all but `Boolean`, a minor kind
/// within it.
#[derive(Clone, Copy, Debug, PartialEq, Eq, Structural)]
pub enum FakerKind {
    Address(AddressKind),
    Boolean,
    Company(CompanyKind),
    Lorem(LoremKind),
    Number(NumberKind),
    Internet(InternetKind),
    Name(NameKind),
}

/// The major token of a kind token: what stands before the first `.`, or the
/// whole token where there is none.
pub open spec fn major_token(token: Seq<char>) -> Seq<char> {
    if token.contains('.') {
        before_first(token, '.')
    } else {
        token
    }
}

/// The token names one of the major categories, up to ASCII case.
pub open spec fn is_major(token: Seq<char>) -> bool {
    exists|m: Major| m.accepts(token)
}

/// The error with which a kind token is refused, and when:
/// - an unknown major category, named by the major token;
/// - a category that has minor kinds, given without one;
/// - a minor token that the category does not know (any minor token, for
///   `Boolean`).
pub open spec fn kind_refused(token: Seq<char>, e: SpecError) -> bool {
    match e {
        SpecError::UnknownMajor(major) => {
            &&& major@ == major_token(token)
            &&& !is_major(major@)
        },
        SpecError::InvalidKind(whole) => {
            &&& whole@ == token
            &&& !token.contains('.')
            &&& is_major(token)
            &&& !Major::Boolean.accepts(token)
        },
        SpecError::UnknownMinor(major, minor) => {
            &&& token.contains('.')
            &&& major@ == before_first(token, '.')
            &&& minor@ == after_first(token, '.')
            &&& is_major(major@)
            &&& forall|k: FakerKind| !k.denoted_by(token)
        },
        _ => false,
    }
}

impl FakerKind {
    /// The major category.
    pub open spec fn major(self) -> Major {
        match self {
            FakerKind::Address(_) => Major::Address,
            FakerKind::Boolean => Major::Boolean,
            FakerKind::Company(_) => Major::Company,
            FakerKind::Lorem(_) => Major::Lorem,
            FakerKind::Number(_) => Major::Number,
            FakerKind::Internet(_) => Major::Internet,
            FakerKind::Name(_) => Major::Name,
        }
    }

    /// The name of the minor kind, where the category has one.
    pub open spec fn minor_label(self) -> Option<Seq<char>> {
        match self {
            FakerKind::Address(m) => Some(m.label()),
            FakerKind::Boolean => None,
            FakerKind::Company(m) => Some(m.label()),
            FakerKind::Lorem(m) => Some(m.label()),
            FakerKind::Number(m) => Some(m.label()),
            FakerKind::Internet(m) => Some(m.label()),
            FakerKind::Name(m) => Some(m.label()),
        }
    }

    /// Whether the minor token names this kind's minor variant.
    pub open spec fn minor_accepts(self, token: Seq<char>) -> bool {
        match self {
            FakerKind::Address(m) => accepts(m, token),
            FakerKind::Boolean => false,
            FakerKind::Company(m) => accepts(m, token),
            FakerKind::Lorem(m) => accepts(m, token),
            FakerKind::Number(m) => accepts(m, token),
            FakerKind::Internet(m) => accepts(m, token),
            FakerKind::Name(m) => accepts(m, token),
        }
    }

    /// The kind token `MAJOR` or `MAJOR.MINOR` names this kind: the major token
    /// equals the category's name up to ASCII case, and the minor token is
    /// absent for `Boolean` and names the minor variant otherwise.
    pub open spec fn denoted_by(self, token: Seq<char>) -> bool {
        if token.contains('.') {
            &&& self.major().accepts(before_first(token, '.'))
            &&& self.minor_accepts(after_first(token, '.'))
        } else {
            self == FakerKind::Boolean && self.major().accepts(token)
        }
    }

    /// The notation of this kind: `Major.minor`, or `Major` alone for a
    /// category without minor kinds.
    pub open spec fn notation(self) -> Seq<char> {
        match self.minor_label() {
            Some(minor) => self.major().label() + seq!['.'] + minor,
            None => self.major().label(),
        }
    }

    /// The major category.
    pub fn major_of(&self) -> (r: Major)
        ensures
            r == self.major(),
    {
        match self {
            FakerKind::Address(_) => Major::Address,
            FakerKind::Boolean => Major::Boolean,
            FakerKind::Company(_) => Major::Company,
            FakerKind::Lorem(_) => Major::Lorem,
            FakerKind::Number(_) => Major::Number,
            FakerKind::Internet(_) => Major::Internet,
            FakerKind::Name(_) => Major::Name,
        }
    }

    /// The name of the major category.
    pub fn as_ref(&self) -> (r: &'static str)
        ensures
            r@ == self.major().label(),
    {
        self.major_of().name()
    }

    /// Every kind, grouped by category; the categories and the kinds of each
    /// in listing order.
    pub open spec fn listing() -> Seq<Seq<FakerKind>> {
        Seq::new(Major::listed().len(), |g: int| Major::listed()[g].kinds_listed())
    }

    /// Every kind, grouped by category, in listing order.
    pub fn combinations() -> (groups: Vec<Vec<FakerKind>>)
        ensures
            groups@.len() == FakerKind::listing().len(),
            forall|g: int|
                0 <= g < groups@.len() ==> (#[trigger] groups@[g])@ == FakerKind::listing()[g],
    {
        let majors = Major::all();
        let mut groups: Vec<Vec<FakerKind>> = Vec::new();
        let mut g: usize = 0;
        while g < majors.len()
            invariant
                g <= majors.len(),
                majors@ == Major::listed(),
                groups.len() == g,
                forall|j: int| 0 <= j < g ==> (#[trigger] groups@[j])@ == FakerKind::listing()[j],
            decreases majors.len() - g,
        {
            groups.push(majors[g].kinds());
            g += 1;
        }
        groups
    }

    /// This kind's notation, as listings show it.
    pub fn notation_string(&self) -> (r: String)
        ensures
            r@ == self.notation(),
    {
        let mut text = self.major_of().name().to_owned();
        match self.minor_name() {
            Some(minor) => {
                proof {
                    reveal_strlit(".");
                }
                text.append(".");
                text.append(minor);
            },
            None => {},
        }
        text
    }

    /// The listing holds every kind, in the group of its category.
    pub proof fn lemma_listing_complete(k: FakerKind)
        ensures
            exists|g: int, i: int|
                0 <= g < FakerKind::listing().len() && 0 <= i < FakerKind::listing()[g].len()
                    && FakerKind::listing()[g][i] == k,
    {
        Major::lemma_listed_complete(k.major());
        let g = choose|g: int| 0 <= g < Major::listed().len() && Major::listed()[g] == k.major();
        match k {
            FakerKind::Address(m) => lemma_kinds_complete(m),
            FakerKind::Boolean => assert(Major::Boolean.kinds_listed()[0] == k),
            FakerKind::Company(m) => lemma_kinds_complete(m),
            FakerKind::Lorem(m) => lemma_kinds_complete(m),
            FakerKind::Number(m) => lemma_kinds_complete(m),
            FakerKind::Internet(m) => lemma_kinds_complete(m),
            FakerKind::Name(m) => lemma_kinds_complete(m),
        }
        let i = choose|i: int|
            0 <= i < k.major().kinds_listed().len() && k.major().kinds_listed()[i] == k;
        assert(FakerKind::listing()[g][i] == k);
    }

    /// Reads a kind token, `MAJOR` or `MAJOR.MINOR`. Both parts are matched up
    /// to ASCII case; the minor part is split off at the first `.`.
    ///
    /// The major token is looked up first. A category with minor kinds refuses
    /// a token without a minor part; `Boolean`, which has none, refuses any
    /// minor part.
    pub fn from_str(s: &str) -> (r: Result<FakerKind, SpecError>)
        ensures
            match r {
                Ok(k) => k.denoted_by(s@),
                Err(e) => kind_refused(s@, e),
            },
    {
        let chars = to_chars(s);
        let len = chars.len();
        match find_char(&chars, '.') {
            None => match Major::from_str(s) {
                None => Err(SpecError::UnknownMajor(s.to_owned())),
                Some(Major::Boolean) => Ok(FakerKind::Boolean),
                Some(m) => {
                    proof {
                        if Major::Boolean.accepts(s@) {
                            Major::lemma_accepts_one(m, Major::Boolean, s@);
                        }
                    }
                    Err(SpecError::InvalidKind(s.to_owned()))
                },
            },
            Some(p) => {
                let major = s.substring_char(0, p);
                let minor = s.substring_char(p + 1, len);
                match Major::from_str(major) {
                    None => Err(SpecError::UnknownMajor(major.to_owned())),
                    Some(m) => match m.minor(minor) {
                        Some(k) => Ok(k),
                        None => {
                            assert forall|k: FakerKind| !k.denoted_by(s@) by {
                                if k.major().accepts(major@) {
                                    Major::lemma_accepts_one(m, k.major(), major@);
                                }
                            }
                            Err(SpecError::UnknownMinor(major.to_owned(), minor.to_owned()))
                        },
                    },
                }
            },
        }
    }

    /// The name of the minor kind, where the category has one.
    pub fn minor_name(&self) -> (r: Option<&'static str>)
        ensures
            match r {
                Some(name) => self.minor_label() == Some(name@),
                None => self.minor_label() is None,
            },
    {
        match self {
            FakerKind::Address(m) => Some(m.name()),
            FakerKind::Boolean => None,
            FakerKind::Company(m) => Some(m.name()),
            FakerKind::Lorem(m) => Some(m.name()),
            FakerKind::Number(m) => Some(m.name()),
            FakerKind::Internet(m) => Some(m.name()),
            FakerKind::Name(m) => Some(m.name()),
        }
    }
}

} // verus!
