//! Sets of directives seen by their columns: which columns they target, in
//! what order they stand, and whether a record is wide enough for them.
use crate::directive::Spec;
use vstd::prelude::*;

verus! {

/// The columns that the directives target, in the directives' order.
pub open spec fn columns(specs: Seq<Spec>) -> Seq<usize> {
    specs.map_values(|d: Spec| d.column)
}

/// Some directive targets `column`.
pub open spec fn is_target(specs: Seq<Spec>, column: int) -> bool {
    exists|k: int| 0 <= k < specs.len() && #[trigger] specs[k].column == column
}

/// The directives stand in strictly ascending order of their columns.
pub open spec fn ascending(specs: Seq<Spec>) -> bool {
    forall|i: int, j: int| 0 <= i < j < specs.len() ==> specs[i].column < specs[j].column
}

/// Two lists hold the same directives, whatever their order.
pub open spec fn same_directives(a: Seq<Spec>, b: Seq<Spec>) -> bool {
    &&& a.len() == b.len()
    &&& forall|d: Spec| a.contains(d) <==> b.contains(d)
}

/// The directives in ascending order of their columns.
pub fn ordered(specs: &[Spec]) -> (sorted: Vec<Spec>)
    requires
        columns(specs@).no_duplicates(),
    ensures
        ascending(sorted@),
        same_directives(sorted@, specs@),
{
    let mut sorted: Vec<Spec> = Vec::new();
    let mut i: usize = 0;
    while i < specs.len()
        invariant
            i <= specs.len(),
            sorted.len() == i,
            columns(specs@).no_duplicates(),
            ascending(sorted@),
            forall|d: Spec| sorted@.contains(d) <==> specs@.take(i as int).contains(d),
        decreases specs.len() - i,
    {
        let next = specs[i];
        let mut p: usize = 0;
        while p < sorted.len() && sorted[p].column < next.column
            invariant
                p <= sorted.len(),
                forall|j: int| 0 <= j < p ==> sorted@[j].column < next.column,
            decreases sorted.len() - p,
        {
            p += 1;
        }
        let ghost before = sorted@;
        proof {
            assert forall|j: int| p <= j < before.len() implies before[j].column
                > next.column by {
                assert(before.contains(before[j]));
                let k = choose|k: int|
                    0 <= k < specs@.take(i as int).len() && specs@.take(i as int)[k] == before[j];
                assert(columns(specs@)[k] == before[j].column);
                assert(columns(specs@)[i as int] == next.column);
            }
        }
        sorted.insert(p, next);
        proof {
            let after = sorted@;
            let taken = specs@.take(i + 1);
            assert forall|d: Spec| after.contains(d) <==> taken.contains(d) by {
                if after.contains(d) {
                    let j = choose|j: int| 0 <= j < after.len() && after[j] == d;
                    if j == p {
                        assert(taken[i as int] == d);
                    } else {
                        assert(before.contains(d));
                    }
                }
                if taken.contains(d) {
                    let k = choose|k: int| 0 <= k < taken.len() && taken[k] == d;
                    if k == i {
                        assert(after[p as int] == d);
                    } else {
                        assert(before.contains(d));
                        let j = choose|j: int| 0 <= j < before.len() && before[j] == d;
                        assert(after[if j < p {
                            j
                        } else {
                            j + 1
                        }] == d);
                    }
                }
            }
            assert(ascending(after));
        }
        i += 1;
    }
    assert(specs@.take(i as int) =~= specs@);
    sorted
}

/// The position, among the directives, of the one that targets `column`.
pub open spec fn target_of(specs: Seq<Spec>, column: int) -> int {
    choose|k: int| 0 <= k < specs.len() && #[trigger] specs[k].column == column
}

/// In an ascending list each directive is the one that targets its column.
pub proof fn lemma_target_of(specs: Seq<Spec>, k: int)
    requires
        ascending(specs),
        0 <= k < specs.len(),
    ensures
        is_target(specs, specs[k].column as int),
        target_of(specs, specs[k].column as int) == k,
{
    let t = target_of(specs, specs[k].column as int);
    assert(specs[t].column == specs[k].column);
}

/// Every directive targets a column of a record that is `width` columns wide.
pub open spec fn in_range(specs: Seq<Spec>, width: int) -> bool {
    forall|k: int| 0 <= k < specs.len() ==> #[trigger] specs[k].column < width
}

/// `column` is the leftmost targeted column that a record of `width` columns
/// does not have.
pub open spec fn first_missing(specs: Seq<Spec>, width: int, column: int) -> bool {
    &&& is_target(specs, column)
    &&& column >= width
    &&& forall|c: int| is_target(specs, c) && c >= width ==> column <= c
}

/// Lists that hold the same directives target the same columns.
pub proof fn lemma_same_targets(a: Seq<Spec>, b: Seq<Spec>, column: int)
    requires
        same_directives(a, b),
    ensures
        is_target(a, column) == is_target(b, column),
{
    if is_target(a, column) {
        let k = choose|k: int| 0 <= k < a.len() && #[trigger] a[k].column == column;
        assert(a.contains(a[k]));
        let j = choose|j: int| 0 <= j < b.len() && b[j] == a[k];
    }
    if is_target(b, column) {
        let k = choose|k: int| 0 <= k < b.len() && #[trigger] b[k].column == column;
        assert(b.contains(b[k]));
        let j = choose|j: int| 0 <= j < a.len() && a[j] == b[k];
    }
}

/// Lists that hold the same directives fit the same widths.
pub proof fn lemma_same_range(a: Seq<Spec>, b: Seq<Spec>, width: int)
    requires
        same_directives(a, b),
    ensures
        in_range(a, width) == in_range(b, width),
{
    if in_range(a, width) {
        assert forall|k: int| 0 <= k < b.len() implies #[trigger] b[k].column < width by {
            lemma_same_targets(a, b, b[k].column as int);
            let j = choose|j: int| 0 <= j < a.len() && #[trigger] a[j].column == b[k].column;
        }
    }
    if in_range(b, width) {
        assert forall|k: int| 0 <= k < a.len() implies #[trigger] a[k].column < width by {
            lemma_same_targets(a, b, a[k].column as int);
            let j = choose|j: int| 0 <= j < b.len() && #[trigger] b[j].column == a[k].column;
        }
    }
}

/// The leftmost targeted column that a record of `width` columns lacks, if it
/// lacks any.
pub fn missing_column(specs: &Vec<Spec>, width: usize) -> (r: Option<usize>)
    requires
        ascending(specs@),
    ensures
        match r {
            Some(column) => first_missing(specs@, width as int, column as int),
            None => in_range(specs@, width as int),
        },
{
    let mut k: usize = 0;
    while k < specs.len()
        invariant
            k <= specs.len(),
            ascending(specs@),
            forall|j: int| 0 <= j < k ==> specs@[j].column < width,
        decreases specs.len() - k,
    {
        let column = specs[k].column;
        if column >= width {
            assert forall|c: int| is_target(specs@, c) && c >= width implies column <= c by {
                let j = choose|j: int| 0 <= j < specs@.len() && #[trigger] specs@[j].column == c;
            }
            return Some(column);
        }
        k += 1;
    }
    None
}

} // verus!
