//! What can go wrong: while reading a directive, while validating a set of
//! directives, and while rewriting a record. Each error carries what it is
//! about and can say so in words.
use vstd::prelude::*;
use vstd::string::StringExecFns;

verus! {

/// Why a directive token was refused. Each variant carries the offending text.
#[derive(Debug, PartialEq, Eq)]
pub enum SpecError {
    /// The token holds no `:`; carries the whole token.
    InvalidFormat(String),
    /// What stands before the `:` is no column index; carries that text.
    InvalidColumn(String),
    /// The category needs a minor kind and none was given; carries the kind
    /// token.
    InvalidKind(String),
    /// The major category is not known; carries the major token.
    UnknownMajor(String),
    /// The major category has no such minor kind; carries the major and the
    /// minor token.
    UnknownMinor(String, String),
}

/// Why a run was refused or aborted.
#[derive(Clone, Copy, Debug, PartialEq, Eq, Structural)]
pub enum AnonError {
    /// Some column is the target of more than one directive; carries the number
    /// of directives minus the number of distinct columns.
    DuplicateColumns(usize),
    /// A directive targets a column that a record does not have.
    ColumnOutOfRange { column: usize, width: usize },
}

/// The character that writes the digit `d`.
pub open spec fn digit_char(d: nat) -> char {
    if d == 0 {
        '0'
    } else if d == 1 {
        '1'
    } else if d == 2 {
        '2'
    } else if d == 3 {
        '3'
    } else if d == 4 {
        '4'
    } else if d == 5 {
        '5'
    } else if d == 6 {
        '6'
    } else if d == 7 {
        '7'
    } else if d == 8 {
        '8'
    } else {
        '9'
    }
}

/// The decimal notation of `n`, without leading zeros.
pub open spec fn decimal_text(n: nat) -> Seq<char>
    decreases n,
{
    if n < 10 {
        seq![digit_char(n)]
    } else {
        decimal_text(n / 10).push(digit_char(n % 10))
    }
}

/// The text that writes one digit.
fn digit_str(d: usize) -> (r: &'static str)
    requires
        d < 10,
    ensures
        r@ == seq![digit_char(d as nat)],
{
    proof {
        reveal_strlit("0");
        reveal_strlit("1");
        reveal_strlit("2");
        reveal_strlit("3");
        reveal_strlit("4");
        reveal_strlit("5");
        reveal_strlit("6");
        reveal_strlit("7");
        reveal_strlit("8");
        reveal_strlit("9");
    }
    if d == 0 {
        "0"
    } else if d == 1 {
        "1"
    } else if d == 2 {
        "2"
    } else if d == 3 {
        "3"
    } else if d == 4 {
        "4"
    } else if d == 5 {
        "5"
    } else if d == 6 {
        "6"
    } else if d == 7 {
        "7"
    } else if d == 8 {
        "8"
    } else {
        "9"
    }
}

/// Writes a number in decimal notation.
pub fn decimal_string(n: usize) -> (r: String)
    ensures
        r@ == decimal_text(n as nat),
    decreases n,
{
    if n < 10 {
        digit_str(n).to_owned()
    } else {
        let mut text = decimal_string(n / 10);
        let digit = digit_str(n % 10);
        text.append(digit);
        text
    }
}

impl SpecError {
    /// The error in words, with the offending text in quotes.
    pub open spec fn text(self) -> Seq<char> {
        match self {
            SpecError::InvalidFormat(token) =>
                "Invalid format for rewrite spec. It should be <column>:<type>, but was '"@
                    + token@ + "'"@,
            SpecError::InvalidColumn(column) => "Could not parse '"@ + column@
                + "' as unsigned integer"@,
            SpecError::InvalidKind(kind) => "Invalid faker kind: '"@ + kind@ + "'"@,
            SpecError::UnknownMajor(major) => "Unknown major faker kind: '"@ + major@ + "'"@,
            SpecError::UnknownMinor(major, minor) => "Unknown minor faker kind: '"@ + minor@
                + "' of major kind '"@ + major@ + "'"@,
        }
    }

    /// The error in words.
    pub fn message(&self) -> (r: String)
        ensures
            r@ == self.text(),
    {
        match self {
            SpecError::InvalidFormat(token) => {
                let mut text =
                    "Invalid format for rewrite spec. It should be <column>:<type>, but was '".to_owned();
                text.append(token.as_str());
                text.append("'");
                text
            },
            SpecError::InvalidColumn(column) => {
                let mut text = "Could not parse '".to_owned();
                text.append(column.as_str());
                text.append("' as unsigned integer");
                text
            },
            SpecError::InvalidKind(kind) => {
                let mut text = "Invalid faker kind: '".to_owned();
                text.append(kind.as_str());
                text.append("'");
                text
            },
            SpecError::UnknownMajor(major) => {
                let mut text = "Unknown major faker kind: '".to_owned();
                text.append(major.as_str());
                text.append("'");
                text
            },
            SpecError::UnknownMinor(major, minor) => {
                let mut text = "Unknown minor faker kind: '".to_owned();
                text.append(minor.as_str());
                text.append("' of major kind '");
                text.append(major.as_str());
                text.append("'");
                text
            },
        }
    }
}

impl AnonError {
    /// The error in words: the number of excess directives, or the missing
    /// column and the width of the record that lacks it.
    pub open spec fn text(self) -> Seq<char> {
        match self {
            AnonError::DuplicateColumns(n) => "rewrite specifications contained "@ + decimal_text(
                n as nat,
            ) + " duplicate column(s)"@,
            AnonError::ColumnOutOfRange { column, width } => "Invalid column index "@
                + decimal_text(column as nat) + " - rows have no more than "@ + decimal_text(
                width as nat,
            ) + " columns"@,
        }
    }

    /// The error in words.
    pub fn message(&self) -> (r: String)
        ensures
            r@ == self.text(),
    {
        match self {
            AnonError::DuplicateColumns(n) => {
                let mut text = "rewrite specifications contained ".to_owned();
                text.append(decimal_string(*n).as_str());
                text.append(" duplicate column(s)");
                text
            },
            AnonError::ColumnOutOfRange { column, width } => {
                let mut text = "Invalid column index ".to_owned();
                text.append(decimal_string(*column).as_str());
                text.append(" - rows have no more than ");
                text.append(decimal_string(*width).as_str());
                text.append(" columns");
                text
            },
        }
    }
}

} // verus!
