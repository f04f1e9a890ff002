//! What the minor kinds of all categories have in common: two spellings per
//! variant, a fixed listing order, and the lookup of a token among them.
use crate::faker::FakerKind;
use crate::text::{matches_name, same_ignoring_case, to_chars};
use vstd::prelude::*;

verus! {

/// The minor kinds of one major category.
pub trait Minor: Sized + Copy {
    /// The variant's name in snake_case.
    spec fn label(self) -> Seq<char>;

    /// The variant's name written without separators.
    spec fn compact(self) -> Seq<char>;

    /// Every variant, in the order in which listings show them.
    spec fn listed() -> Seq<Self>;

    /// The generator kind that this variant selects within its category.
    spec fn kind(self) -> FakerKind;

    /// The variant's name in snake_case.
    fn name(self) -> (r: &'static str)
        ensures
            r@ == self.label(),
    ;

    /// The variant's name written without separators.
    fn compact_name(self) -> (r: &'static str)
        ensures
            r@ == self.compact(),
    ;

    /// Every variant, in listing order.
    fn all() -> (v: Vec<Self>)
        ensures
            v@ == Self::listed(),
    ;

    /// The generator kind that this variant selects within its category.
    fn wrap(self) -> (k: FakerKind)
        ensures
            k == self.kind(),
    ;

    /// The listing holds every variant.
    proof fn lemma_listed_complete(k: Self)
        ensures
            Self::listed().contains(k),
    ;

    /// No token is, up to ASCII case, a spelling of two variants.
    proof fn lemma_accepts_one(a: Self, b: Self, token: Seq<char>)
        requires
            same_ignoring_case(token, a.label()) || same_ignoring_case(token, a.compact()),
            same_ignoring_case(token, b.label()) || same_ignoring_case(token, b.compact()),
        ensures
            a == b,
    ;
}

/// A token names a variant when it equals either spelling up to ASCII case.
pub open spec fn accepts<K: Minor>(k: K, token: Seq<char>) -> bool {
    same_ignoring_case(token, k.label()) || same_ignoring_case(token, k.compact())
}

/// The kinds of one category, in listing order.
pub open spec fn kinds_of<K: Minor>() -> Seq<FakerKind> {
    Seq::new(K::listed().len(), |i: int| K::listed()[i].kind())
}

/// Whether `token` names the variant `k`.
pub fn named<K: Minor>(k: K, token: &Vec<char>) -> (r: bool)
    ensures
        r == accepts(k, token@),
{
    matches_name(token, k.name()) || matches_name(token, k.compact_name())
}

/// Looks a minor token up among the variants of one category. At most one
/// variant accepts a token (`Minor::lemma_accepts_one`), so the result is
/// determined.
pub fn lookup<K: Minor>(token: &str) -> (r: Option<K>)
    ensures
        match r {
            Some(k) => accepts(k, token@),
            None => forall|k: K| !accepts(k, token@),
        },
{
    let chars = to_chars(token);
    let all = K::all();
    let mut i: usize = 0;
    while i < all.len()
        invariant
            i <= all.len(),
            all@ == K::listed(),
            chars@ == token@,
            forall|j: int| 0 <= j < i ==> !accepts(all@[j], token@),
        decreases all.len() - i,
    {
        if named(all[i], &chars) {
            return Some(all[i]);
        }
        i += 1;
    }
    assert forall|k: K| !accepts(k, token@) by {
        K::lemma_listed_complete(k);
    }
    None
}

/// The kinds of one category, in listing order.
pub fn kinds<K: Minor>() -> (kinds: Vec<FakerKind>)
    ensures
        kinds@ == kinds_of::<K>(),
{
    let minors = K::all();
    let mut kinds: Vec<FakerKind> = Vec::new();
    let mut i: usize = 0;
    while i < minors.len()
        invariant
            i <= minors.len(),
            minors@ == K::listed(),
            kinds.len() == i,
            forall|j: int| 0 <= j < i ==> kinds@[j] == minors@[j].kind(),
        decreases minors.len() - i,
    {
        kinds.push(minors[i].wrap());
        i += 1;
    }
    assert(kinds@ =~= kinds_of::<K>());
    kinds
}

/// The listing of a category holds the kind of each of its variants.
pub proof fn lemma_kinds_complete<K: Minor>(k: K)
    ensures
        kinds_of::<K>().contains(k.kind()),
{
    K::lemma_listed_complete(k);
    let i = choose|i: int| 0 <= i < K::listed().len() && K::listed()[i] == k;
    assert(kinds_of::<K>()[i] == k.kind());
}

} // verus!
