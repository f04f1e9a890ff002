//! Rewrite directives: `COLUMN:MAJOR.MINOR`, or `COLUMN:MAJOR` for a category
//! without minor kinds.
use crate::error::SpecError;
use crate::faker::{kind_refused, FakerKind};
use crate::text::{after_first, before_first, column_value, find_char, parse_column, to_chars};
use vstd::prelude::*;
use vstd::string::StrSliceExecFns;

verus! {

/// One rewrite rule: the values of column `column` (counted from zero) are
/// replaced by values of kind `kind`.
#[derive(Clone, Copy, Debug, PartialEq, Eq, Structural)]
pub struct Spec {
    pub column: usize,
    pub kind: FakerKind,
}

impl Spec {
    /// The token `COLUMN:KIND` names this directive: it is split at its first
    /// `:`, the column token denotes `column` and the kind token names `kind`.
    pub open spec fn denoted_by(self, token: Seq<char>) -> bool {
        &&& token.contains(':')
        &&& column_value(before_first(token, ':')) == Some(self.column as nat)
        &&& self.kind.denoted_by(after_first(token, ':'))
    }

    /// Reads a directive. The column is read before the kind, so a token that
    /// is wrong in both is refused for its column.
    pub fn from_str(s: &str) -> (r: Result<Spec, SpecError>)
        ensures
            reads_as(s@, r),
    {
        let chars = to_chars(s);
        let len = chars.len();
        match find_char(&chars, ':') {
            None => Err(SpecError::InvalidFormat(s.to_owned())),
            Some(p) => {
                let column_token = s.substring_char(0, p);
                let kind_token = s.substring_char(p + 1, len);
                let column_chars = to_chars(column_token);
                match parse_column(&column_chars) {
                    None => Err(SpecError::InvalidColumn(column_token.to_owned())),
                    Some(column) => match FakerKind::from_str(kind_token) {
                        Ok(kind) => Ok(Spec { column, kind }),
                        Err(e) => Err(e),
                    },
                }
            },
        }
    }
}

/// What reading a directive token gives: the directive that the token
/// names, or the error with which it is refused.
pub open spec fn reads_as(token: Seq<char>, r: Result<Spec, SpecError>) -> bool {
    match r {
        Ok(d) => d.denoted_by(token),
        Err(e) => spec_refused(token, e),
    }
}

/// The error with which a directive token is refused, and when:
/// - a token without `:`;
/// - a column token that denotes no index;
/// - with a good column, whatever refuses the kind token.
pub open spec fn spec_refused(token: Seq<char>, e: SpecError) -> bool {
    match e {
        SpecError::InvalidFormat(whole) => whole@ == token && !token.contains(':'),
        SpecError::InvalidColumn(column) => {
            &&& token.contains(':')
            &&& column@ == before_first(token, ':')
            &&& column_value(column@) is None
        },
        _ => {
            &&& token.contains(':')
            &&& column_value(before_first(token, ':')) is Some
            &&& kind_refused(after_first(token, ':'), e)
        },
    }
}

} // verus!
