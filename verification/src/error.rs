//! Failures. Whatever goes wrong between a call and the database comes back as
//! one kind of error, which carries what the backend said.

use vstd::prelude::*;

verus! {

/// What the backend reported, in plain values.
#[derive(Debug, PartialEq, Eq)]
pub enum DbError {
    /// A fetch of a single row matched no row.
    RowNotFound,
    /// A fetch of a single row matched more than one.
    MultipleRows,
    /// The database server turned the statement down.
    Database {
        /// The server's five-character state code, where it gave one.
        code: Option<String>,
        /// The server's message.
        message: String,
        /// The constraint that was violated, where one was.
        constraint: Option<String>,
    },
    /// Anything else: the connection, the pool, the protocol, a column that
    /// did not decode.
    Driver { message: String },
}

/// The model of a [`DbError`].
pub enum DbErrorView {
    RowNotFound,
    MultipleRows,
    Database { code: Option<Seq<char>>, message: Seq<char>, constraint: Option<Seq<char>> },
    Driver { message: Seq<char> },
}

impl View for DbError {
    type V = DbErrorView;

    open spec fn view(&self) -> DbErrorView {
        match self {
            DbError::RowNotFound => DbErrorView::RowNotFound,
            DbError::MultipleRows => DbErrorView::MultipleRows,
            DbError::Database { code, message, constraint } => DbErrorView::Database {
                code: code.deep_view(),
                message: message@,
                constraint: constraint.deep_view(),
            },
            DbError::Driver { message } => DbErrorView::Driver { message: message@ },
        }
    }
}

/// The error of every operation of this crate.
#[derive(Debug, PartialEq, Eq)]
pub enum Error {
    /// A query or statement failed. A fetch by identifier that finds nothing
    /// is reported this way too, with [`DbError::RowNotFound`] inside.
    DatabaseQueryError(DbError),
}

/// The model of an [`Error`].
pub enum ErrorView {
    DatabaseQueryError(DbErrorView),
}

impl View for Error {
    type V = ErrorView;

    open spec fn view(&self) -> ErrorView {
        match self {
            Error::DatabaseQueryError(cause) => ErrorView::DatabaseQueryError(cause@),
        }
    }
}

/// What can be said of a failed insert or update for the log. Every field is
/// best effort: it is `None` where the backend gave nothing to read.
#[derive(Debug, PartialEq, Eq)]
pub struct Diagnostics {
    /// The state code as a number, where it is one.
    pub code: Option<i32>,
    /// The server's message.
    pub db_message: Option<String>,
    /// The violated constraint.
    pub constraint: Option<String>,
}

/// The model of [`Diagnostics`].
pub struct DiagnosticsView {
    pub code: Option<int>,
    pub db_message: Option<Seq<char>>,
    pub constraint: Option<Seq<char>>,
}

impl View for Diagnostics {
    type V = DiagnosticsView;

    open spec fn view(&self) -> DiagnosticsView {
        DiagnosticsView {
            code: match self.code {
                Some(code) => Some(code as int),
                None => None,
            },
            db_message: self.db_message.deep_view(),
            constraint: self.constraint.deep_view(),
        }
    }
}

fn clone_text(text: &Option<String>) -> (copy: Option<String>)
    ensures
        copy == *text,
{
    match text {
        Some(text) => Some(text.clone()),
        None => None,
    }
}

impl Clone for DbError {
    fn clone(&self) -> (copy: Self)
        ensures
            copy == *self,
    {
        match self {
            DbError::RowNotFound => DbError::RowNotFound,
            DbError::MultipleRows => DbError::MultipleRows,
            DbError::Database { code, message, constraint } => DbError::Database {
                code: clone_text(code),
                message: message.clone(),
                constraint: clone_text(constraint),
            },
            DbError::Driver { message } => DbError::Driver { message: message.clone() },
        }
    }
}

impl Clone for Error {
    fn clone(&self) -> (copy: Self)
        ensures
            copy == *self,
    {
        match self {
            Error::DatabaseQueryError(cause) => Error::DatabaseQueryError(cause.clone()),
        }
    }
}

impl Clone for Diagnostics {
    fn clone(&self) -> (copy: Self)
        ensures
            copy == *self,
    {
        Diagnostics {
            code: self.code,
            db_message: clone_text(&self.db_message),
            constraint: clone_text(&self.constraint),
        }
    }
}

/// Whether `c` is one of the ten decimal digits.
pub open spec fn is_digit(c: char) -> bool {
    '0' <= c && c <= '9'
}

/// The digit that `c` stands for.
pub open spec fn digit_value(c: char) -> int {
    c as int - '0' as int
}

/// Whether `s` holds decimal digits and nothing else.
pub open spec fn all_digits(s: Seq<char>) -> bool {
    forall|i: int| 0 <= i < s.len() ==> is_digit(#[trigger] s[i])
}

/// The number that the digits of `s` write, the leftmost counting most.
pub open spec fn digits_value(s: Seq<char>) -> int
    decreases s.len(),
{
    if s.len() == 0 {
        0
    } else {
        10 * digits_value(s.drop_last()) + digit_value(s.last())
    }
}

/// The number that `s` writes in decimal, where it writes one that an `i32`
/// holds: an optional sign, `+` or `-`, then one digit or more, and nothing
/// before, between or after.
pub open spec fn decimal_i32(s: Seq<char>) -> Option<int> {
    let signed = s.len() > 0 && (s[0] == '-' || s[0] == '+');
    let digits = if signed {
        s.subrange(1, s.len() as int)
    } else {
        s
    };
    let magnitude = digits_value(digits);
    let value = if signed && s[0] == '-' {
        -magnitude
    } else {
        magnitude
    };
    if digits.len() > 0 && all_digits(digits) && i32::MIN <= value <= i32::MAX {
        Some(value)
    } else {
        None
    }
}

/// A run of digits is worth at least as much as any of its prefixes.
proof fn lemma_digits_value_grows(s: Seq<char>, k: int)
    requires
        all_digits(s),
        0 <= k <= s.len(),
    ensures
        0 <= digits_value(s.take(k)) <= digits_value(s),
    decreases s.len(),
{
    if k == s.len() {
        assert(s.take(k) =~= s);
        if s.len() > 0 {
            lemma_digits_value_grows(s.drop_last(), k - 1);
            assert(is_digit(s.last()));
        }
    } else {
        lemma_digits_value_grows(s.drop_last(), k);
        assert(s.drop_last().take(k) =~= s.take(k));
        assert(is_digit(s.last()));
    }
}

/// Reads a decimal number out of `text`.
pub fn parse_decimal(text: &str) -> (n: Option<i32>)
    ensures
        match n {
            Some(value) => decimal_i32(text@) == Some(value as int),
            None => decimal_i32(text@) is None,
        },
{
    let len: usize = text.unicode_len();
    if len == 0 {
        return None;
    }
    let first: char = text.get_char(0);
    let negative: bool = first == '-';
    let start: usize = if first == '-' || first == '+' {
        1
    } else {
        0
    };
    let ghost digits = text@.subrange(start as int, len as int);
    assert(start == 0 ==> digits =~= text@);
    let mut magnitude: i64 = 0;
    let mut i: usize = start;
    while i < len
        invariant
            start <= i <= len,
            0 < len == text@.len(),
            first == text@[0],
            start == (if first == '-' || first == '+' { 1int } else { 0int }),
            digits == text@.subrange(start as int, len as int),
            start == 0 ==> digits == text@,
            all_digits(digits.take(i - start)),
            magnitude == digits_value(digits.take(i - start)),
            0 <= magnitude <= 2147483648,
        decreases len - i,
    {
        let c: char = text.get_char(i);
        if !(c >= '0' && c <= '9') {
            assert(!is_digit(digits[i - start]));
            return None;
        }
        let digit: u32 = c as u32 - '0' as u32;
        proof {
            let longer = digits.take(i - start + 1);
            assert(longer.drop_last() =~= digits.take(i - start));
            assert(longer.last() == c);
            assert forall|j: int| 0 <= j < longer.len() implies is_digit(#[trigger] longer[j]) by {
                if j < i - start {
                    assert(longer[j] == digits.take(i - start)[j]);
                }
            }
        }
        magnitude = magnitude * 10 + digit as i64;
        if magnitude > 2147483648 {
            proof {
                if all_digits(digits) {
                    lemma_digits_value_grows(digits, i - start + 1);
                }
            }
            return None;
        }
        i = i + 1;
    }
    assert(digits.take(len - start) =~= digits);
    if i == start {
        return None;
    }
    if negative {
        Some((-magnitude) as i32)
    } else if magnitude <= 2147483647 {
        Some(magnitude as i32)
    } else {
        None
    }
}

impl DbErrorView {
    /// What the log of a failed insert or update can say of this failure.
    pub open spec fn diagnostics(self) -> DiagnosticsView {
        match self {
            DbErrorView::Database { code, message, constraint } => DiagnosticsView {
                code: match code {
                    Some(text) => decimal_i32(text),
                    None => None,
                },
                db_message: Some(message),
                constraint,
            },
            _ => DiagnosticsView { code: None, db_message: None, constraint: None },
        }
    }
}

impl DbError {
    /// Reads out of the failure what the log of a failed insert or update
    /// carries: the state code as a number, the message and the constraint.
    /// A failure that did not come from the server has none of them, and a
    /// code that is no number is left out.
    pub fn diagnostics(&self) -> (d: Diagnostics)
        ensures
            d@ == self@.diagnostics(),
    {
        match self {
            DbError::Database { code, message, constraint } => {
                let number: Option<i32> = match code {
                    Some(text) => parse_decimal(text.as_str()),
                    None => None,
                };
                Diagnostics {
                    code: number,
                    db_message: Some(message.clone()),
                    constraint: clone_text(constraint),
                }
            },
            _ => Diagnostics { code: None, db_message: None, constraint: None },
        }
    }
}

impl Error {
    /// What the backend reported.
    pub fn cause(&self) -> (cause: &DbError)
        ensures
            self@ == ErrorView::DatabaseQueryError(cause@),
    {
        match self {
            Error::DatabaseQueryError(cause) => cause,
        }
    }

    /// The diagnostics of the failure inside, as [`DbError::diagnostics`]
    /// gives them.
    pub fn diagnostics(&self) -> (d: Diagnostics)
        ensures
            self@ matches ErrorView::DatabaseQueryError(cause) && d@ == cause.diagnostics(),
    {
        self.cause().diagnostics()
    }
}

} // verus!
