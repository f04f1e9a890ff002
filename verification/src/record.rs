//! Records of a delimited table, as the `csv` crate holds them.
use vstd::prelude::*;

verus! {

/// `csv::StringRecord`, one decoded row. What it holds is seen only through
/// `fields_of` and the methods specified below.
#[verifier::external_type_specification]
#[verifier::external_body]
pub struct ExStringRecord(csv::StringRecord);

/// The fields of a record, first to last.
pub uninterp spec fn fields_of(record: csv::StringRecord) -> Seq<Seq<char>>;

/// `csv::StringRecord::new` makes a record without fields.
pub assume_specification[ csv::StringRecord::new ]() -> (r: csv::StringRecord)
    ensures
        fields_of(r) == Seq::<Seq<char>>::empty(),
;

/// `csv::StringRecord::len` counts the fields.
pub assume_specification[ csv::StringRecord::len ](record: &csv::StringRecord) -> (n: usize)
    ensures
        n == fields_of(*record).len(),
;

/// `csv::StringRecord::get` hands out field `i`, or nothing where the record
/// has no such field.
pub assume_specification<'a>[ csv::StringRecord::get ](
    record: &'a csv::StringRecord,
    i: usize,
) -> (r: Option<&'a str>)
    ensures
        match r {
            Some(field) => i < fields_of(*record).len() && field@ == fields_of(*record)[i as int],
            None => i >= fields_of(*record).len(),
        },
;

/// `csv::StringRecord::push_field` appends one field and keeps the others.
pub assume_specification[ csv::StringRecord::push_field ](
    record: &mut csv::StringRecord,
    field: &str,
)
    ensures
        fields_of(*final(record)) == fields_of(*old(record)).push(field@),
;

/// Copies fields `from..to` of `source` to the end of `target`.
pub fn push_fields(
    target: &mut csv::StringRecord,
    source: &csv::StringRecord,
    from: usize,
    to: usize,
)
    requires
        from <= to <= fields_of(*source).len(),
    ensures
        fields_of(*final(target)) == fields_of(*old(target)) + fields_of(*source).subrange(
            from as int,
            to as int,
        ),
{
    let mut i: usize = from;
    while i < to
        invariant
            from <= i <= to <= fields_of(*source).len(),
            fields_of(*target) == fields_of(*old(target)) + fields_of(*source).subrange(
                from as int,
                i as int,
            ),
        decreases to - i,
    {
        match source.get(i) {
            Some(field) => target.push_field(field),
            None => {},
        }
        i += 1;
    }
}

} // verus!
