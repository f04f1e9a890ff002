//! Writing replacement values into the targeted columns of a record.
use crate::columns::{ascending, in_range, is_target, target_of};
use crate::directive::Spec;
use crate::record::{fields_of, push_fields};
use crate::text::texts;
use csv::StringRecord;
use vstd::prelude::*;

verus! {

/// The rewritten record: as wide as the record; a targeted column holds the
/// value that stands in `values` at its directive's position; every other
/// column holds what it held.
pub open spec fn spliced(
    fields: Seq<Seq<char>>,
    specs: Seq<Spec>,
    values: Seq<Seq<char>>,
) -> Seq<Seq<char>> {
    Seq::new(
        fields.len(),
        |c: int|
            if is_target(specs, c) {
                values[target_of(specs, c)]
            } else {
                fields[c]
            },
    )
}

/// Writes the values into the targeted columns of a record, in one pass from
/// left to right: the columns up to the next targeted one are copied, then
/// that directive's value is written in place of its column.
pub fn splice(record: &StringRecord, specs: &Vec<Spec>, values: &Vec<String>) -> (out:
    StringRecord)
    requires
        ascending(specs@),
        in_range(specs@, fields_of(*record).len() as int),
        values.len() == specs.len(),
    ensures
        fields_of(out) == spliced(fields_of(*record), specs@, texts(values@)),
{
    let ghost goal = spliced(fields_of(*record), specs@, texts(values@));
    let width = record.len();
    let mut out = StringRecord::new();
    let mut cursor: usize = 0;
    let mut k: usize = 0;
    while k < specs.len()
        invariant
            k <= specs.len(),
            cursor <= width,
            width == fields_of(*record).len(),
            values.len() == specs.len(),
            ascending(specs@),
            in_range(specs@, width as int),
            goal == spliced(fields_of(*record), specs@, texts(values@)),
            forall|j: int| 0 <= j < k ==> specs@[j].column < cursor,
            forall|j: int| k <= j < specs.len() ==> specs@[j].column >= cursor,
            fields_of(out) == goal.take(cursor as int),
        decreases specs.len() - k,
    {
        let column = specs[k].column;
        push_fields(&mut out, record, cursor, column);
        out.push_field(values[k].as_str());
        cursor = column + 1;
        k += 1;
    }
    push_fields(&mut out, record, cursor, width);
    out
}

} // verus!
