//! The row transformation engine: validates a set of directives once, then
//! rewrites records one by one, replacing the targeted columns and copying
//! every other column as it is.
use crate::catalog::plausible;
use crate::columns::{
    ascending, columns, first_missing, in_range, is_target, lemma_same_range, lemma_same_targets,
    lemma_target_of, missing_column, ordered, same_directives, target_of,
};
use crate::directive::Spec;
use crate::error::AnonError;
use crate::memo::Memo;
use crate::record::fields_of;
use crate::splice::splice;
use csv::StringRecord;
use std::collections::BTreeSet;
use vstd::prelude::*;

verus! {

/// What a run has done so far.
#[derive(Clone, Copy, Debug, PartialEq, Eq, Structural)]
pub struct RewriteInfo {
    /// Records taken in, a refused one included.
    pub rows: u64,
    /// Cells replaced.
    pub cells: u64,
}

impl Default for RewriteInfo {
    fn default() -> (info: RewriteInfo)
        ensures
            info.rows == 0,
            info.cells == 0,
    {
        RewriteInfo { rows: 0, cells: 0 }
    }
}

/// How many directives there are beyond one per targeted column.
pub open spec fn duplicates(specs: Seq<Spec>) -> int {
    specs.len() - columns(specs).to_set().len()
}

/// Accepts a set of directives in which no two target the same column, and
/// hands it back unchanged. Any other set is refused with the number of its
/// excess directives, which is then at least one.
pub fn validated(specs: &[Spec]) -> (r: Result<&[Spec], AnonError>)
    ensures
        match r {
            Ok(same) => same@ == specs@ && columns(specs@).no_duplicates(),
            Err(AnonError::DuplicateColumns(n)) => {
                &&& !columns(specs@).no_duplicates()
                &&& n == duplicates(specs@)
                &&& n >= 1
            },
            Err(_) => false,
        },
{
    let mut seen: BTreeSet<usize> = BTreeSet::new();
    let mut i: usize = 0;
    while i < specs.len()
        invariant
            i <= specs.len(),
            seen@ == columns(specs@).take(i as int).to_set(),
        decreases specs.len() - i,
    {
        proof {
            let sofar = columns(specs@).take(i as int);
            assert(columns(specs@).take(i + 1) =~= sofar.push(specs@[i as int].column));
            sofar.lemma_push_to_set_commute(specs@[i as int].column);
        }
        seen.insert(specs[i].column);
        i += 1;
    }
    proof {
        assert(columns(specs@).take(i as int) =~= columns(specs@));
        columns(specs@).lemma_cardinality_of_set();
        if columns(specs@).no_duplicates() {
            columns(specs@).unique_seq_to_set();
        }
        if columns(specs@).to_set().len() == columns(specs@).len() {
            columns(specs@).lemma_no_dup_set_cardinality();
        }
    }
    if seen.len() != specs.len() {
        Err(AnonError::DuplicateColumns(specs.len() - seen.len()))
    } else {
        Ok(specs)
    }
}

/// `output` is `input` rewritten under the directives: every targeted column
/// exists, the width is kept, and every column that no directive targets
/// holds what it held.
pub open spec fn preserved(
    specs: Seq<Spec>,
    input: Seq<Seq<char>>,
    output: Seq<Seq<char>>,
) -> bool {
    &&& in_range(specs, input.len() as int)
    &&& output.len() == input.len()
    &&& forall|c: int| 0 <= c < input.len() && !is_target(specs, c) ==> output[c] == input[c]
}

/// The memo holds `replacement` for `original`.
pub open spec fn recalled(
    memo: Map<Seq<char>, Seq<char>>,
    original: Seq<char>,
    replacement: Seq<char>,
) -> bool {
    memo.contains_key(original) && memo[original] == replacement
}

/// A replacement, once given, stays: where a later memo keeps all that an
/// earlier one held, what the two recall for one original text is the same.
/// So under memoization two targeted cells that held the same text hold the
/// same replacement, also in records rewritten one after the other.
pub proof fn lemma_memo_agrees(
    earlier: Map<Seq<char>, Seq<char>>,
    later: Map<Seq<char>, Seq<char>>,
    original: Seq<char>,
    first: Seq<char>,
    second: Seq<char>,
)
    requires
        earlier.submap_of(later),
        recalled(earlier, original, first),
        recalled(later, original, second),
    ensures
        first == second,
{
}

/// The original values of the targeted cells of a record.
pub open spec fn target_cells(specs: Seq<Spec>, fields: Seq<Seq<char>>) -> Set<Seq<char>> {
    Set::new(|cell: Seq<char>| exists|c: int| is_target(specs, c) && fields[c] == cell)
}

/// `value` may have been made for `cell` under directive `d`: the directive's
/// column of the record held `cell`, and `value` is what a value of the
/// directive's kind can be.
pub open spec fn made_by(
    d: Spec,
    fields: Seq<Seq<char>>,
    cell: Seq<char>,
    value: Seq<char>,
) -> bool {
    &&& d.column < fields.len()
    &&& fields[d.column as int] == cell
    &&& plausible(d.kind, value)
}

/// `value` may have been made for `cell` under one of the directives.
pub open spec fn made_for(
    specs: Seq<Spec>,
    fields: Seq<Seq<char>>,
    cell: Seq<char>,
    value: Seq<char>,
) -> bool {
    exists|k: int| 0 <= k < specs.len() && #[trigger] made_by(specs[k], fields, cell, value)
}

/// The engine of one run: the validated directives in ascending order of
/// their columns, the memo, and the counters.
///
/// With memoization, a replacement is looked up by the original cell value
/// alone, not by column or kind: cells that held the same text receive the
/// same replacement, whichever targeted column they stand in.
pub struct Anonymiser {
    specs: Vec<Spec>,
    remember: bool,
    memo: Memo,
    info: RewriteInfo,
}

impl Anonymiser {
    /// The directives are in ascending order, and the memo is sound.
    pub closed spec fn wf(self) -> bool {
        &&& ascending(self.specs@)
        &&& self.memo.wf()
        &&& !self.remember ==> self.memo@ == Map::<Seq<char>, Seq<char>>::empty()
    }

    /// The directives, in ascending order of their columns.
    pub closed spec fn directives(self) -> Seq<Spec> {
        self.specs@
    }

    /// Whether replacements are memoized.
    pub closed spec fn memoizing(self) -> bool {
        self.remember
    }

    /// The replacements given so far, by original value; empty without
    /// memoization.
    pub closed spec fn memo_map(self) -> Map<Seq<char>, Seq<char>> {
        self.memo@
    }

    /// The counters.
    pub closed spec fn tally(self) -> RewriteInfo {
        self.info
    }

    /// Sets a run up. The directives are validated here, once; a set with two
    /// directives for one column is refused.
    pub fn new(specs: &[Spec], remember: bool) -> (r: Result<Anonymiser, AnonError>)
        ensures
            match r {
                Ok(engine) => {
                    &&& columns(specs@).no_duplicates()
                    &&& engine.wf()
                    &&& ascending(engine.directives())
                    &&& same_directives(engine.directives(), specs@)
                    &&& engine.directives().len() <= usize::MAX
                    &&& engine.memoizing() == remember
                    &&& engine.memo_map() == Map::<Seq<char>, Seq<char>>::empty()
                    &&& engine.tally() == (RewriteInfo { rows: 0, cells: 0 })
                },
                Err(AnonError::DuplicateColumns(n)) => {
                    &&& !columns(specs@).no_duplicates()
                    &&& n == duplicates(specs@)
                    &&& n >= 1
                },
                Err(_) => false,
            },
    {
        match validated(specs) {
            Err(e) => Err(e),
            Ok(valid) => {
                let sorted = ordered(valid);
                assert(sorted.len() <= usize::MAX);
                Ok(
                    Anonymiser {
                        specs: sorted,
                        remember,
                        memo: Memo::new(),
                        info: RewriteInfo { rows: 0, cells: 0 },
                    },
                )
            },
        }
    }

    /// The counters.
    pub fn info(&self) -> (info: RewriteInfo)
        ensures
            info == self.tally(),
    {
        self.info
    }

    /// How one record is rewritten: what comes back, and what becomes of the
    /// memo, where `self` is the engine before and `after` the engine after.
    ///
    /// A record that lacks a targeted column is refused with the leftmost such
    /// column and its own width, and the memo stays as it was. Otherwise the
    /// result is as wide as the record, holds the record's own text in every
    /// column that no directive targets, and a replacement in each targeted
    /// column.
    ///
    /// With memoization the replacement of a cell is what the memo holds for
    /// the cell's original text afterwards; the memo keeps all it held, and
    /// what it gained was made under a directive whose cell held that text.
    /// Without it each replacement is a fresh value of the directive's kind.
    pub open spec fn rewrites(
        self,
        after: Anonymiser,
        record: StringRecord,
        r: Result<StringRecord, AnonError>,
    ) -> bool {
        let specs = self.directives();
        let fields = fields_of(record);
        let memo = after.memo_map();
        &&& after.wf()
        &&& after.directives() == specs
        &&& after.memoizing() == self.memoizing()
        &&& self.memo_map().submap_of(memo)
        &&& match r {
            Ok(out) => {
                &&& preserved(specs, fields, fields_of(out))
                &&& self.memoizing() ==> {
                    &&& memo.dom() == self.memo_map().dom() + target_cells(specs, fields)
                    &&& forall|cell: Seq<char>|
                        #[trigger] memo.contains_key(cell) && !self.memo_map().contains_key(cell)
                            ==> made_for(specs, fields, cell, memo[cell])
                    &&& forall|c: int|
                        is_target(specs, c) ==> #[trigger] recalled(
                            memo,
                            fields[c],
                            fields_of(out)[c],
                        )
                }
                &&& !self.memoizing() ==> {
                    &&& memo == self.memo_map()
                    &&& forall|k: int|
                        0 <= k < specs.len() ==> plausible(
                            (#[trigger] specs[k]).kind,
                            fields_of(out)[specs[k].column as int],
                        )
                }
            },
            Err(AnonError::ColumnOutOfRange { column, width }) => {
                &&& width == fields.len()
                &&& first_missing(specs, width as int, column as int)
                &&& memo == self.memo_map()
            },
            Err(_) => false,
        }
    }

    /// Rewrites one record and counts it: one row, and one cell for each
    /// replacement. A refused record counts as a row and adds no cell.
    pub fn rewrite(&mut self, record: &StringRecord) -> (r: Result<StringRecord, AnonError>)
        requires
            old(self).wf(),
            old(self).tally().rows < u64::MAX,
            old(self).tally().cells + old(self).directives().len() <= u64::MAX,
        ensures
            old(self).rewrites(*final(self), *record, r),
            final(self).tally().rows == old(self).tally().rows + 1,
            final(self).tally().cells == old(self).tally().cells + if r is Ok {
                old(self).directives().len()
            } else {
                0
            },
    {
        let count = self.specs.len();
        let r = self.transform(record);
        self.info.rows += 1;
        if r.is_ok() {
            self.info.cells += count as u64;
        }
        r
    }

    /// Rewrites one record and leaves the counters alone.
    ///
    /// Every directive's column is checked against the record's width before
    /// any value is made, so that nothing is generated or memoized for a
    /// refused record.
    pub fn transform(&mut self, record: &StringRecord) -> (r: Result<StringRecord, AnonError>)
        requires
            old(self).wf(),
        ensures
            old(self).rewrites(*final(self), *record, r),
            final(self).tally() == old(self).tally(),
    {
        let width = record.len();
        let count = self.specs.len();
        let ghost fields = fields_of(*record);
        let ghost specs = self.specs@;
        let ghost memo_before = self.memo@;
        match missing_column(&self.specs, width) {
            Some(column) => {
                return Err(AnonError::ColumnOutOfRange { column, width });
            },
            None => {},
        }
        let mut values: Vec<String> = Vec::new();
        let mut k: usize = 0;
        while k < count
            invariant
                k <= count,
                count == self.specs.len(),
                self.specs@ == specs,
                self.remember == old(self).remember,
                self.info == old(self).info,
                fields == fields_of(*record),
                width == fields.len(),
                ascending(specs),
                in_range(specs, width as int),
                self.memo.wf(),
                values.len() == k,
                memo_before.submap_of(self.memo@),
                !self.remember ==> self.memo@ == memo_before && memo_before == Map::<
                    Seq<char>,
                    Seq<char>,
                >::empty(),
                !self.remember ==> forall|j: int|
                    0 <= j < k ==> plausible((#[trigger] specs[j]).kind, values@[j]@),
                self.remember ==> forall|j: int|
                    0 <= j < k ==> self.memo@.contains_key(
                        #[trigger] fields[specs[j].column as int],
                    ) && values@[j]@ == self.memo@[fields[specs[j].column as int]],
                self.remember ==> forall|cell: Seq<char>|
                    self.memo@.contains_key(cell) <==> memo_before.contains_key(cell) || exists|
                        j: int,
                    |
                        0 <= j < k && #[trigger] fields[specs[j].column as int] == cell,
                self.remember ==> forall|cell: Seq<char>|
                    #[trigger] self.memo@.contains_key(cell) && !memo_before.contains_key(cell)
                        ==> made_for(specs.take(k as int), fields, cell, self.memo@[cell]),
            decreases count - k,
        {
            let spec = self.specs[k];
            let ghost memo_mid = self.memo@;
            let value = if self.remember {
                match record.get(spec.column) {
                    Some(cell) => self.memo.resolve(cell, &spec.kind),
                    None => spec.kind.fake(),
                }
            } else {
                spec.kind.fake()
            };
            values.push(value);
            proof {
                let memo = self.memo@;
                assert forall|cell: Seq<char>|
                    self.remember && #[trigger] memo.contains_key(cell)
                        && !memo_before.contains_key(cell) implies made_for(
                    specs.take(k + 1),
                    fields,
                    cell,
                    memo[cell],
                ) by {
                    if memo_mid.contains_key(cell) {
                        let j = choose|j: int|
                            0 <= j < specs.take(k as int).len() && #[trigger] made_by(
                                specs.take(k as int)[j],
                                fields,
                                cell,
                                memo_mid[cell],
                            );
                    } else {
                        assert(made_by(specs.take(k + 1)[k as int], fields, cell, memo[cell]));
                    }
                }
            }
            k += 1;
        }
        let out = splice(record, &self.specs, &values);
        proof {
            let memo = self.memo@;
            assert forall|j: int| 0 <= j < specs.len() implies target_of(
                specs,
                specs[j].column as int,
            ) == j by {
                lemma_target_of(specs, j);
            }
            if self.remember {
                assert forall|c: int| is_target(specs, c) implies #[trigger] recalled(
                    memo,
                    fields[c],
                    fields_of(out)[c],
                ) by {
                    let j = target_of(specs, c);
                    assert(specs[j].column == c);
                }
                assert forall|cell: Seq<char>|
                    memo.dom().contains(cell) <==> (memo_before.dom() + target_cells(
                        specs,
                        fields,
                    )).contains(cell) by {
                    if target_cells(specs, fields).contains(cell) {
                        let c = choose|c: int| is_target(specs, c) && fields[c] == cell;
                        let j = target_of(specs, c);
                        assert(fields[specs[j].column as int] == cell);
                    }
                    if memo.contains_key(cell) && !memo_before.contains_key(cell) {
                        let j = choose|j: int|
                            0 <= j < k && #[trigger] fields[specs[j].column as int] == cell;
                        assert(is_target(specs, specs[j].column as int));
                    }
                }
                assert(memo.dom() =~= memo_before.dom() + target_cells(specs, fields));
                assert(specs.take(k as int) =~= specs);
            }
        }
        Ok(out)
    }
}

/// The text of column `c` of record `i`.
pub open spec fn cell(records: Seq<StringRecord>, i: int, c: int) -> Seq<char> {
    fields_of(records[i])[c]
}

/// Record `i` is the first that lacks a targeted column.
pub open spec fn first_refused(records: Seq<StringRecord>, specs: Seq<Spec>, i: int) -> bool {
    &&& 0 <= i < records.len()
    &&& !in_range(specs, fields_of(records[i]).len() as int)
    &&& forall|j: int| 0 <= j < i ==> in_range(specs, fields_of(#[trigger] records[j]).len() as int)
}

/// `replacement` may have been made for a cell of some record that held
/// `original`, under one of the directives.
pub open spec fn sourced(
    records: Seq<StringRecord>,
    specs: Seq<Spec>,
    original: Seq<char>,
    replacement: Seq<char>,
) -> bool {
    exists|j: int|
        0 <= j < records.len() && #[trigger] made_for(
            specs,
            fields_of(records[j]),
            original,
            replacement,
        )
}

/// What may have been made under one list of directives may have been made
/// under any list that holds the same directives.
pub proof fn lemma_same_makers(
    a: Seq<Spec>,
    b: Seq<Spec>,
    fields: Seq<Seq<char>>,
    cell: Seq<char>,
    value: Seq<char>,
)
    requires
        same_directives(a, b),
        made_for(a, fields, cell, value),
    ensures
        made_for(b, fields, cell, value),
{
    let k = choose|k: int| 0 <= k < a.len() && #[trigger] made_by(a[k], fields, cell, value);
    assert(a.contains(a[k]));
    let j = choose|j: int| 0 <= j < b.len() && b[j] == a[k];
}

/// What rewriting a table gives, record by record and in order, under one set
/// of directives.
///
/// A set with two directives for one column is refused, whatever the records
/// are. Else the run stops at the first record that lacks a targeted column,
/// with that record's width and its leftmost missing column. Otherwise every
/// record comes back rewritten: same width, untargeted columns untouched.
///
/// With `remember`, targeted cells that held the same text hold the same
/// replacement, in whichever record and column they stand, and each
/// replacement was made under a directive whose cell held that text. Without
/// it each replacement is a fresh value of its directive's kind.
pub open spec fn run_result(
    records: Seq<StringRecord>,
    specs: Seq<Spec>,
    remember: bool,
    r: Result<Vec<StringRecord>, AnonError>,
) -> bool {
    match r {
        Ok(out) => {
            &&& columns(specs).no_duplicates()
            &&& out@.len() == records.len()
            &&& forall|i: int|
                0 <= i < records.len() ==> preserved(
                    specs,
                    fields_of(records[i]),
                    fields_of(#[trigger] out@[i]),
                )
            &&& remember ==> forall|i: int, c: int, j: int, d: int|
                0 <= i < records.len() && 0 <= j < records.len() && is_target(specs, c)
                    && is_target(specs, d) && cell(records, i, c) == cell(records, j, d)
                    ==> #[trigger] cell(out@, i, c) == #[trigger] cell(out@, j, d)
            &&& remember ==> forall|i: int, c: int|
                0 <= i < records.len() && is_target(specs, c) ==> sourced(
                    records,
                    specs,
                    cell(records, i, c),
                    #[trigger] cell(out@, i, c),
                )
            &&& !remember ==> forall|i: int, k: int|
                0 <= i < records.len() && 0 <= k < specs.len() ==> plausible(
                    (#[trigger] specs[k]).kind,
                    #[trigger] cell(out@, i, specs[k].column as int),
                )
        },
        Err(AnonError::DuplicateColumns(n)) => {
            &&& !columns(specs).no_duplicates()
            &&& n == duplicates(specs)
            &&& n >= 1
        },
        Err(AnonError::ColumnOutOfRange { column, width }) => {
            &&& columns(specs).no_duplicates()
            &&& exists|i: int|
                first_refused(records, specs, i) && width == fields_of(records[i]).len()
            &&& first_missing(specs, width as int, column as int)
        },
    }
}

/// A run succeeds exactly when no two directives target one column and every
/// record has every targeted column.
pub proof fn lemma_run_succeeds(
    records: Seq<StringRecord>,
    specs: Seq<Spec>,
    remember: bool,
    r: Result<Vec<StringRecord>, AnonError>,
)
    requires
        run_result(records, specs, remember, r),
    ensures
        r is Ok <==> columns(specs).no_duplicates() && forall|i: int|
            0 <= i < records.len() ==> in_range(specs, fields_of(#[trigger] records[i]).len() as int),
{
    match r {
        Ok(out) => {
            assert forall|i: int| 0 <= i < records.len() implies in_range(
                specs,
                fields_of(#[trigger] records[i]).len() as int,
            ) by {
                assert(preserved(specs, fields_of(records[i]), fields_of(out@[i])));
            }
        },
        Err(_) => {},
    }
}

/// Column preservation: after a run that succeeded, every record is as wide
/// as it was, and every column that no directive targets holds the text that
/// it held, at the same place.
pub proof fn lemma_columns_preserved(
    records: Seq<StringRecord>,
    specs: Seq<Spec>,
    remember: bool,
    out: Vec<StringRecord>,
    i: int,
    c: int,
)
    requires
        run_result(records, specs, remember, Ok(out)),
        0 <= i < records.len(),
        0 <= c < fields_of(records[i]).len(),
        !is_target(specs, c),
    ensures
        out@.len() == records.len(),
        fields_of(out@[i]).len() == fields_of(records[i]).len(),
        cell(out@, i, c) == cell(records, i, c),
{
    assert(preserved(specs, fields_of(records[i]), fields_of(out@[i])));
}

/// Memoization: after a run with memoization that succeeded, two targeted
/// cells that held the same text hold the same replacement, in whichever
/// records and columns they stand.
pub proof fn lemma_same_text_same_replacement(
    records: Seq<StringRecord>,
    specs: Seq<Spec>,
    out: Vec<StringRecord>,
    i: int,
    c: int,
    j: int,
    d: int,
)
    requires
        run_result(records, specs, true, Ok(out)),
        0 <= i < records.len(),
        0 <= j < records.len(),
        is_target(specs, c),
        is_target(specs, d),
        cell(records, i, c) == cell(records, j, d),
    ensures
        cell(out@, i, c) == cell(out@, j, d),
{
}

/// Rewrites a table held in memory and counts what was done: `rows` is the
/// number of records and `cells` the number of replacements, one per
/// directive and record. The counters are `u64`, so the product of the two
/// numbers has to fit.
pub fn anonymise(records: &Vec<StringRecord>, specs: &[Spec], remember: bool) -> (r: Result<
    (Vec<StringRecord>, RewriteInfo),
    AnonError,
>)
    requires
        records.len() * specs.len() <= u64::MAX,
    ensures
        match r {
            Ok((out, info)) => {
                &&& run_result(records@, specs@, remember, Ok(out))
                &&& info.rows == records.len()
                &&& info.cells == records.len() * specs.len()
            },
            Err(e) => run_result(records@, specs@, remember, Err(e)),
        },
{
    match rewrite_all(records, specs, remember) {
        Ok(out) => {
            let rows = records.len() as u64;
            let cells = rows * (specs.len() as u64);
            Ok((out, RewriteInfo { rows, cells }))
        },
        Err(e) => Err(e),
    }
}

/// Rewrites a table held in memory, record by record and in order, under one
/// set of directives. The directives are validated first, before any record
/// is looked at.
pub fn rewrite_all(records: &Vec<StringRecord>, specs: &[Spec], remember: bool) -> (r: Result<
    Vec<StringRecord>,
    AnonError,
>)
    ensures
        run_result(records@, specs@, remember, r),
{
    let mut engine = match Anonymiser::new(specs, remember) {
        Ok(engine) => engine,
        Err(e) => {
            return Err(e);
        },
    };
    let ghost sorted = engine.directives();
    let mut out: Vec<StringRecord> = Vec::new();
    let mut i: usize = 0;
    while i < records.len()
        invariant
            i <= records.len(),
            columns(specs@).no_duplicates(),
            engine.wf(),
            engine.directives() == sorted,
            engine.memoizing() == remember,
            same_directives(sorted, specs@),
            out.len() == i,
            forall|r: int|
                0 <= r < i ==> preserved(
                    sorted,
                    fields_of(records@[r]),
                    fields_of(#[trigger] out@[r]),
                ),
            remember ==> forall|r: int, c: int|
                0 <= r < i && is_target(sorted, c) ==> #[trigger] recalled(
                    engine.memo_map(),
                    cell(records@, r, c),
                    cell(out@, r, c),
                ),
            forall|original: Seq<char>| #[trigger]
                engine.memo_map().contains_key(original) ==> sourced(
                    records@.take(i as int),
                    sorted,
                    original,
                    engine.memo_map()[original],
                ),
            !remember ==> forall|r: int, k: int|
                0 <= r < i && 0 <= k < sorted.len() ==> plausible(
                    (#[trigger] sorted[k]).kind,
                    #[trigger] cell(out@, r, sorted[k].column as int),
                ),
        decreases records.len() - i,
    {
        let ghost memo_before = engine.memo_map();
        let ghost done = out@;
        match engine.transform(&records[i]) {
            Err(e) => {
                proof {
                    match e {
                        AnonError::ColumnOutOfRange { column, width } => {
                            lemma_same_range(sorted, specs@, width as int);
                            assert(!in_range(sorted, width as int)) by {
                                let k = choose|k: int|
                                    0 <= k < sorted.len() && #[trigger] sorted[k].column == column;
                            }
                            assert forall|j: int| 0 <= j < i implies in_range(
                                specs@,
                                fields_of(#[trigger] records@[j]).len() as int,
                            ) by {
                                assert(preserved(
                                    sorted,
                                    fields_of(records@[j]),
                                    fields_of(out@[j]),
                                ));
                                lemma_same_range(
                                    sorted,
                                    specs@,
                                    fields_of(records@[j]).len() as int,
                                );
                            }
                            assert(first_refused(records@, specs@, i as int));
                            lemma_same_targets(sorted, specs@, column as int);
                            assert forall|c: int| is_target(specs@, c) && c >= width implies column
                                <= c by {
                                lemma_same_targets(sorted, specs@, c);
                            }
                        },
                        _ => {},
                    }
                }
                return Err(e);
            },
            Ok(rewritten) => {
                out.push(rewritten);
                proof {
                    let memo = engine.memo_map();
                    let sofar = records@.take(i as int);
                    let next = records@.take(i + 1);
                    assert forall|original: Seq<char>| #[trigger]
                        memo.contains_key(original) implies sourced(
                        next,
                        sorted,
                        original,
                        memo[original],
                    ) by {
                        if memo_before.contains_key(original) {
                            let j = choose|j: int|
                                0 <= j < sofar.len() && #[trigger] made_for(
                                    sorted,
                                    fields_of(sofar[j]),
                                    original,
                                    memo_before[original],
                                );
                            assert(next[j] == sofar[j]);
                        } else {
                            assert(made_for(
                                sorted,
                                fields_of(next[i as int]),
                                original,
                                memo[original],
                            ));
                        }
                    }
                    assert forall|r: int, c: int|
                        remember && 0 <= r < i + 1 && is_target(sorted, c) implies #[trigger] recalled(
                        memo,
                        cell(records@, r, c),
                        cell(out@, r, c),
                    ) by {
                        if r < i {
                            assert(recalled(memo_before, cell(records@, r, c), cell(done, r, c)));
                        } else {
                            assert(recalled(
                                memo,
                                fields_of(records@[r])[c],
                                fields_of(rewritten)[c],
                            ));
                        }
                    }
                    assert forall|r: int, k: int|
                        !remember && 0 <= r < i + 1 && 0 <= k < sorted.len() implies plausible(
                        (#[trigger] sorted[k]).kind,
                        #[trigger] cell(out@, r, sorted[k].column as int),
                    ) by {
                        if r < i {
                            assert(cell(done, r, sorted[k].column as int) == cell(
                                out@,
                                r,
                                sorted[k].column as int,
                            ));
                        }
                    }
                }
            },
        }
        i += 1;
    }
    proof {
        let memo = engine.memo_map();
        assert forall|r: int| 0 <= r < records.len() implies preserved(
            specs@,
            fields_of(records@[r]),
            fields_of(#[trigger] out@[r]),
        ) by {
            let input = fields_of(records@[r]);
            lemma_same_range(sorted, specs@, input.len() as int);
            assert forall|c: int| 0 <= c < input.len() && !is_target(specs@, c) implies fields_of(
                out@[r],
            )[c] == input[c] by {
                lemma_same_targets(sorted, specs@, c);
            }
        }
        assert forall|r: int, c: int, j: int, d: int|
            remember && 0 <= r < records.len() && 0 <= j < records.len() && is_target(specs@, c)
                && is_target(specs@, d) && cell(records@, r, c) == cell(
                records@,
                j,
                d,
            ) implies #[trigger] cell(out@, r, c) == #[trigger] cell(out@, j, d) by {
            lemma_same_targets(sorted, specs@, c);
            lemma_same_targets(sorted, specs@, d);
            assert(recalled(memo, cell(records@, r, c), cell(out@, r, c)));
            assert(recalled(memo, cell(records@, j, d), cell(out@, j, d)));
        }
        assert forall|r: int, c: int|
            remember && 0 <= r < records.len() && is_target(specs@, c) implies sourced(
            records@,
            specs@,
            cell(records@, r, c),
            #[trigger] cell(out@, r, c),
        ) by {
            lemma_same_targets(sorted, specs@, c);
            let original = cell(records@, r, c);
            assert(recalled(memo, original, cell(out@, r, c)));
            let j = choose|j: int|
                0 <= j < records@.len() && #[trigger] made_for(
                    sorted,
                    fields_of(records@[j]),
                    original,
                    memo[original],
                );
            lemma_same_makers(sorted, specs@, fields_of(records@[j]), original, memo[original]);
        }
        assert forall|r: int, k: int|
            !remember && 0 <= r < records.len() && 0 <= k < specs.len() implies plausible(
            (#[trigger] specs@[k]).kind,
            #[trigger] cell(out@, r, specs@[k].column as int),
        ) by {
            assert(specs@.contains(specs@[k]));
            let s = choose|s: int| 0 <= s < sorted.len() && sorted[s] == specs@[k];
        }
    }
    Ok(out)
}

} // verus!
